//! Device-state cache and synchronizing event stream for Linux event devices.
//!
//! The kernel reports input as batches of `(type, code, value)` events, each
//! batch closed by a synchronization report. When its ring buffer overflows it
//! drops events and says so. This crate keeps a mirror of the device's state
//! ([`DeviceStateCache`]), applies every batch to it, and on an overflow
//! computes the corrective batch that carries a consumer from the stale state
//! to the freshly queried one ([`DeviceStateCache::diff`]). The decisions of
//! the stream are pure transition functions ([`SyncStream::pull`] and
//! [`SyncStream::resync`]); reading the device and querying its state are
//! left to the stream's owner.

pub mod absinfo;
pub mod cache_view;
pub mod capability;
pub mod codes;
pub mod device_state;
pub mod diff;
pub mod diff_laws;
pub mod event;
pub mod event_variants;
pub mod framing;
pub mod raw_stream;
pub mod stream_laws;
pub mod sync_stream;
pub mod time;

pub use absinfo::{AbsInfo, EnumParseError, UinputAbsSetup};
pub use capability::Capabilities;
pub use codes::{
    AbsAxisType, FFStatusType, FFType, KeyType, LedType, MiscType, OtherType, PowerType,
    RelAxisType, RepeatType, SoundType, SwitchType, SynchronizationType, UInputType,
};
pub use device_state::DeviceStateCache;
pub use event::{InputEvent, InputEventKind};
pub use event_variants::{
    AbsAxisEvent, EvdevEvent, FFEvent, FFStatusEvent, KeyEvent, LedEvent, MiscEvent, OtherEvent,
    PowerEvent, RawEvent, RelAxisEvent, RepeatEvent, SoundEvent, SwitchEvent,
    SynchronizationEvent, UInputEvent,
};
pub use framing::Framer;
pub use raw_stream::{RawItem, RawStream};
pub use sync_stream::{Action, QueryAnswer, SourceItem, StreamError, StreamState, SyncStream};
pub use time::TimeVal;
