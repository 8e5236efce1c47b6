//! Codec for the fixed-layout client save record and a pretty-printing
//! layout policy for its text form.

pub mod codec;
pub mod pretty;
pub mod save_data;

pub use codec::Array;
pub use pretty::PrettyFormatter;
pub use save_data::{
    Bool, ClientSaveData, CrTimeEvent, CritData, CritDataExt, NpcBagItem, ReadError,
};
