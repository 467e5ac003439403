//! Validated subscriber identity.

pub mod new_subscriber;
pub mod subscriber_email;
pub mod subscriber_name;

pub use new_subscriber::NewSubscriber;
pub use subscriber_email::SubscriberEmail;
pub use subscriber_name::SubscriberName;
