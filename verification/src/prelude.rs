//! A convenience module that gathers the crate's public items.
pub use crate::handler::StateChangeHandler;
pub use crate::on_off::OnOff;
pub use crate::{BangBang, BangBangError, BangBangState};
