//! The capture operation's decisions: where the screenshot is written
//! and what the operation returns for each outcome of the capture tool.

use vstd::prelude::*;

verus! {

/// The decimal digit characters of `n`, most significant first.
pub open spec fn decimal_chars(n: nat) -> Seq<char>
    decreases n,
{
    if n < 10 {
        seq![digit_char(n)]
    } else {
        decimal_chars(n / 10) + seq![digit_char(n % 10)]
    }
}

/// The character for a single decimal digit.
pub open spec fn digit_char(d: nat) -> char
    recommends
        d < 10,
{
    ((48 + d) as u8) as char
}

/// The path of the temporary file a capture is written to: a
/// timestamp-named PNG file under the given temporary directory.
pub open spec fn spec_screenshot_path(dir: Seq<char>, ts_millis: u64) -> Seq<char> {
    dir + "/brightpal-screenshot-"@ + decimal_chars(ts_millis as nat) + ".png"@
}

/// Relies on std's `Display` implementation for `u64`, through
/// `format!`: the value's decimal digits, with no sign, padding or
/// separators.
#[verifier::external_body]
fn u64_decimal(n: u64) -> (r: String)
    ensures
        r@ == decimal_chars(n as nat),
{
    format!("{}", n)
}

/// The file path for a capture taken at `ts_millis` (milliseconds since
/// the Unix epoch), placed in the temporary directory `temp_dir`.
pub fn screenshot_file_path(temp_dir: &str, ts_millis: u64) -> (p: String)
    ensures
        p@ == spec_screenshot_path(temp_dir@, ts_millis),
{
    let mut p = String::from_str(temp_dir);
    p.append("/brightpal-screenshot-");
    let digits = u64_decimal(ts_millis);
    p.append(digits.as_str());
    p.append(".png");
    p
}

/// What happened once the capture tool was asked to run.
///
/// The host program launches the tool and reads its output file; this
/// enum carries the outcome back into the library, which decides what
/// the operation returns.
pub enum CaptureEvent {
    /// The tool could not be started; the payload is the operating
    /// system's description of the failure.
    LaunchFailed(String),
    /// The tool ran but exited unsuccessfully — the user dismissed the
    /// interactive selection.
    ToolFailed,
    /// The tool reported success but its output file could not be read.
    FileUnreadable,
    /// The PNG bytes read from the tool's output file.
    Captured(Vec<u8>),
}

/// The error message for a capture tool that could not be started.
pub open spec fn spec_launch_error(detail: Seq<char>) -> Seq<char> {
    "failed to run screencapture: "@ + detail
}

/// Where the capture is attempted: `Ok` with the output file path to
/// hand the capture tool when the platform is supported, `Err` with the
/// `unsupported` error otherwise, so that no file is ever produced
/// there.
pub fn plan_capture(supported: bool, temp_dir: &str, ts_millis: u64) -> (r: Result<String, String>)
    ensures
        supported ==> (r matches Ok(p) && p@ == spec_screenshot_path(temp_dir@, ts_millis)),
        !supported ==> (r matches Err(m) && m@ == "unsupported"@),
{
    if supported {
        Ok(screenshot_file_path(temp_dir, ts_millis))
    } else {
        Err(String::from_str("unsupported"))
    }
}

/// What the capture operation returns for each outcome of the tool: an
/// error when it could not be started; the silent empty pair when the
/// user cancelled or the output file was unreadable; and otherwise the
/// output path together with the `data:` URL embedding the captured
/// bytes.
pub fn finish_capture(path: String, event: CaptureEvent) -> (r: Result<(String, String), String>)
    ensures
        event matches CaptureEvent::LaunchFailed(d) ==> (r matches Err(m) && m@
            == spec_launch_error(d@)),
        event is ToolFailed || event is FileUnreadable ==> (r matches Ok(p) && p.0@
            == Seq::<char>::empty() && p.1@ == Seq::<char>::empty()),
        event matches CaptureEvent::Captured(bytes) ==> (r matches Ok(p) && p.0@ == path@ && p.1@
            == crate::encoding::spec_png_data_url(bytes@)),
{
    match event {
        CaptureEvent::LaunchFailed(detail) => {
            let mut m = String::from_str("failed to run screencapture: ");
            m.append(detail.as_str());
            Err(m)
        },
        CaptureEvent::ToolFailed => Ok((String::new(), String::new())),
        CaptureEvent::FileUnreadable => Ok((String::new(), String::new())),
        CaptureEvent::Captured(bytes) => {
            let url = crate::encoding::png_data_url(bytes.as_slice());
            Ok((path, url))
        },
    }
}

/// On the supported platform a successful capture hands back the
/// planned path, which is never empty, and a data URL that begins with
/// the `data:image/png;base64,` scheme prefix.
pub proof fn lemma_successful_capture_shape(dir: Seq<char>, ts_millis: u64, bytes: Seq<u8>)
    ensures
        spec_screenshot_path(dir, ts_millis).len() > 0,
        crate::encoding::spec_png_data_url(bytes).take("data:image/png;base64,"@.len() as int)
            == "data:image/png;base64,"@,
{
    reveal_strlit("/brightpal-screenshot-");
    reveal_strlit(".png");
    assert(crate::encoding::spec_png_data_url(bytes).take("data:image/png;base64,"@.len() as int)
        =~= "data:image/png;base64,"@);
}

} // verus!
