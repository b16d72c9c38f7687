//! The boundary between a plugin and the process that hosts it.
//!
//! Nothing is promised of the host here. A function that makes a boundary
//! call says in its contract which call it made, with which arguments, and
//! what it made of the reply.

use crate::context::CurrentUser;
use crate::db::DbValue;
use crate::ffmpeg::TranscodeProfile;
use crate::http_client::{HttpClientRequest, HttpClientResponse};
use vstd::prelude::*;

verus! {

/// A handle to byte storage that the host owns: a file, a block of memory or
/// a pipe. A handle is good for the invocation that received it and no
/// longer.
pub trait Buffer {
    /// The length of the storage, or 0 where it is a pipe.
    fn size(&self) -> u64;

    /// Up to `max_len` bytes from `offset` on. An empty reply means that no
    /// data is left.
    fn read(&self, offset: u64, max_len: u64) -> Vec<u8>;

    /// Appends `data` and returns how many bytes were taken.
    fn write(&self, data: &[u8]) -> u64;
}

/// The calls that a plugin can make into its host. Each of them blocks until
/// the host has answered.
pub trait Host {
    /// The host's handles.
    type Buffer: Buffer;

    /// Runs a statement that returns no rows, and reports how many rows it
    /// changed.
    fn execute(&self, statement: &str, params: &[DbValue]) -> Result<u64, String>;

    /// Runs a query and returns its rows as the text of a JSON array.
    fn query_json(&self, statement: &str, params: &[DbValue]) -> Result<String, String>;

    /// Opens the file that the host knows under `uuid`.
    fn open_file(&self, uuid: &str) -> Result<Self::Buffer, String>;

    /// Copies `data` into a fresh block of host memory.
    fn create_memory_buffer(&self, data: &[u8]) -> Self::Buffer;

    /// Sends a request over the host's HTTP client.
    fn http_request(&self, req: HttpClientRequest<Self::Buffer>) -> Result<
        HttpClientResponse<Self::Buffer>,
        String,
    >;

    /// Starts a transcoding and returns the pipe that its output comes
    /// through.
    fn transcode(&self, params: &TranscodeProfile) -> Result<Self::Buffer, String>;

    /// Publishes an event whose payload is JSON text.
    fn publish_event(&self, topic: &str, payload: &str) -> Result<(), String>;

    /// The user on whose behalf the current invocation runs, if any.
    fn get_current_user(&self) -> Option<CurrentUser>;
}

} // verus!
