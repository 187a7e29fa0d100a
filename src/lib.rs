//! Live-room terminal client core: shared room state, the quit/confirm phase
//! machine, tabbed scrollback over the event log, the bounded chat editor and
//! the key handling that ties them together.

pub mod api;
pub mod app;
pub mod editor;
pub mod messages;
pub mod phase;
pub mod state;
pub mod tabs;
pub mod text;

pub use api::{GetRoomInfoResponse, RoomInfo};
pub use app::{App, Key, KeyAction, Outbound};
pub use editor::{InputEditor, MAX_INPUT_LENGTH};
pub use messages::{
    last_enter, replace_emoji_to_unicode, Anchor, Badge, Combo, DanmuMsg, Emoticon, GiftMsg, GuardBuyMsg,
    Identity, Master, MsgType, SuperChatMsg, User, UserActionMsg,
};
pub use phase::{AppState, InputMode, PhaseEvent, SliderBarState};
pub use state::{format_duration, TuiState};
pub use tabs::{Tab, TabKind, Tabs};
