//! Coroutine-aware synchronisation: broadcast notification, channels and a mutex.

pub mod broadcast;
pub mod mpsc;
pub mod mutex;
pub mod wakeup;



pub use self::mutex::{Mutex, MutexGuard};
