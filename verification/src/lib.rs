//! Background tasks, task pools and streams whose results are collected by polling.

mod channel;
mod error;
pub mod laws;
mod poll;
mod receiver;
mod sender;
mod task_pool;
mod task_runner;
mod task_stream;
mod timeout;

pub use error::TimeoutError;
pub use poll::Poll;
pub use receiver::AsyncReceiver;
pub use receiver::AsyncStreamReceiver;
pub use receiver::TryRecv;
pub use sender::Acknowledgement;
pub use sender::StreamSender;
pub use sender::TaskSender;
pub use sender::stream_channel;
pub use sender::task_channel;
pub use task_pool::TaskPool;
pub use task_runner::TaskRunner;
pub use task_runner::TimedTaskRunner;
pub use task_pool::TimedTaskPool;
pub use task_stream::TaskStream;
pub use task_pool::count_pending;
pub use task_pool::outcome_at;
pub use task_pool::status_of;
pub use task_pool::still_pending;
pub use timeout::DEFAULT_TIMEOUT_MILLIS;
pub use timeout::MAX_TIMEOUT_MILLIS;
pub use timeout::web_timer_millis;
