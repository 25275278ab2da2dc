//! The decisions of a small desktop program that asks for access to the
//! notification center, subscribes to its changes and reports each new
//! notification in one line.
//!
//! The library calls neither the window system nor the notification
//! platform. It takes what the host answered as plain values and says what
//! follows from it:
//!
//! - [`access`]: whether an answer to the request for access grants it;
//! - [`subscription`]: the life of a subscription, from the registration of
//!   the handler to the return of its token;
//! - [`notification`]: from a change event to the line that reports it;
//! - [`clock`]: the time of day of an instant, on a 12-hour clock;
//! - [`shell`]: the window, from its creation to its end;
//! - [`host`]: the host's failures and status codes.

pub mod access;
pub mod clock;
pub mod host;
pub mod notification;
pub mod shell;
pub mod subscription;
