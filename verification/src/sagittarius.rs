//! The clients of the remote authority: the stream that keeps the flows in
//! step, the policy by which connections are retried, and the test
//! executions that the authority asks for.

pub mod commands;
pub mod flow_client;
pub mod retry;
pub mod test_execution;
