//! The notification bar of a dashboard.
//!
//! The bar shows one message at a time. Log events of four severities come
//! in; an event is shown if it is severe enough for its origin and either
//! outranks what is on display or finds it older than five seconds. A message
//! that nobody replaced gives way, after those five seconds, to a tip or to
//! the idle text.
//!
//! [`NotificationBar`] holds the state and [`NotificationState`] is its
//! mathematical model, over which every contract is stated. The module
//! [`laws`] proves what holds of the model over all states, events and times.

pub mod appearance;
pub mod bar;
pub mod clock;
pub mod laws;
pub mod settings;
pub mod severity;
pub mod state;
pub mod tips;

pub use appearance::{
    BarAlignment, BarColor, BarControl, BarStyle, HeightPolicy, NotificationFrame, TextWrap,
};
pub use bar::NotificationBar;
pub use settings::NotificationSettings;
pub use severity::{LogEntry, LogSeverity};
pub use state::NotificationState;
