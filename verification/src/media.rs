//! What is asked of ffprobe and what is made of its output.
use crate::error::{AppError, AppResult, ErrorView};
use crate::providers::{lossy, utf8_lossy};
use vstd::prelude::*;
use vstd::string::*;

verus! {

/// An error of ffprobe.
pub open spec fn ffprobe_failure(message: Seq<char>) -> ErrorView {
    ErrorView::External { service: "ffprobe"@, message }
}

/// The arguments with which ffprobe states the duration of a file, which comes behind them.
pub fn probe_arguments() -> (r: Vec<&'static str>)
    ensures
        r@.len() == 6,
        r@[0]@ == "-v"@,
        r@[1]@ == "error"@,
        r@[2]@ == "-show_entries"@,
        r@[3]@ == "format=duration"@,
        r@[4]@ == "-of"@,
        r@[5]@ == "json"@,
{
    vec!["-v", "error", "-show_entries", "format=duration", "-of", "json"]
}

/// The error for an ffprobe that cannot be run.
pub fn probe_not_run(reason: &str) -> (r: AppError)
    ensures
        r@ == ffprobe_failure("无法执行 ffprobe，请手动安装 FFmpeg: "@ + reason@),
{
    let mut message = "无法执行 ffprobe，请手动安装 FFmpeg: ".to_owned();
    message.append(reason);
    AppError::external("ffprobe", message)
}

/// What ffprobe wrote, where it succeeded.
pub fn probe_output(success: bool, stdout: Vec<u8>, stderr: &[u8]) -> (r: AppResult<Vec<u8>>)
    ensures
        success ==> r is Ok && r->Ok_0 == stdout,
        !success ==> r is Err && r->Err_0@ == ffprobe_failure(utf8_lossy(stderr@)),
{
    if success {
        Ok(stdout)
    } else {
        Err(AppError::external("ffprobe", lossy(stderr)))
    }
}

/// The error for a duration that is no number.
pub fn duration_unreadable(reason: &str) -> (r: AppError)
    ensures
        r@ == ffprobe_failure("无法解析媒体时长: "@ + reason@),
{
    let mut message = "无法解析媒体时长: ".to_owned();
    message.append(reason);
    AppError::external("ffprobe", message)
}

/// What ffprobe wrote is taken exactly where it succeeded; else what it complained of is told as its
/// error, as is why it could not be run or read.
pub proof fn law_probe(
    success: bool,
    stdout: Vec<u8>,
    stderr: &[u8],
    reason: &str,
    r: AppResult<Vec<u8>>,
    not_run: AppError,
    unread: AppError,
)
    requires
        call_ensures(probe_output, (success, stdout, stderr), r),
        call_ensures(probe_not_run, (reason,), not_run),
        call_ensures(duration_unreadable, (reason,), unread),
    ensures
        r is Ok <==> success,
        r is Ok ==> r->Ok_0 == stdout,
        r is Err ==> r->Err_0@ == (ErrorView::External {
            service: "ffprobe"@,
            message: utf8_lossy(stderr@),
        }),
        not_run@ is External && not_run@->External_service == "ffprobe"@,
        not_run@->External_message == "无法执行 ffprobe，请手动安装 FFmpeg: "@ + reason@,
        unread@ is External && unread@->External_service == "ffprobe"@,
        unread@->External_message == "无法解析媒体时长: "@ + reason@,
{
}

/// ffprobe is asked for the duration alone, as JSON, and to print nothing but errors besides.
pub proof fn law_probe_arguments(r: Vec<&'static str>)
    requires
        call_ensures(probe_arguments, (), r),
    ensures
        r@.len() == 6,
        r@[0]@ == "-v"@ && r@[1]@ == "error"@,
        r@[2]@ == "-show_entries"@ && r@[3]@ == "format=duration"@,
        r@[4]@ == "-of"@ && r@[5]@ == "json"@,
{
}

} // verus!
