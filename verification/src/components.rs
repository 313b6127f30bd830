//! State kept by the front end's components.

pub mod button;
pub mod keyed_notification_box;
pub mod local_profile;
pub mod post;
