use vstd::prelude::*;

verus! {

/// The text that GBK decoding gives for a buffer of bytes.
pub uninterp spec fn gbk_text(b: Seq<u8>) -> Seq<char>;

/// Every byte is an ASCII byte.
pub open spec fn all_ascii(b: Seq<u8>) -> bool {
    forall|i: int| 0 <= i < b.len() ==> b[i] < 0x80
}

/// `t` holds the characters whose codes are the bytes of `b`.
pub open spec fn same_chars(b: Seq<u8>, t: Seq<char>) -> bool {
    &&& t.len() == b.len()
    &&& forall|i: int| 0 <= i < b.len() ==> t[i] as u32 == b[i] as u32
}

/// Relies on `encoding_rs::Encoding::decode` called on `encoding_rs::GBK`:
/// it decodes the whole buffer (a leading byte-order mark selects its own
/// encoding and is removed; malformed sequences become U+FFFD), and gives
/// back ASCII-only input as the same characters. It panics only when the
/// size of its output buffer overflows `usize`, which the bound excludes.
#[verifier::external_body]
fn decode_gbk(b: &Vec<u8>) -> (r: String)
    requires
        b@.len() <= usize::MAX / 8,
    ensures
        r@ == gbk_text(b@),
        all_ascii(b@) ==> same_chars(b@, r@),
{
    let (text, _, _) = encoding_rs::GBK.decode(b.as_slice());
    text.into_owned()
}

/// What a launch attempt left behind: whether the launcher succeeded, its
/// exit code if it had one, and its two output streams as text.
#[derive(Clone, Debug)]
pub struct LaunchReport {
    pub launched: bool,
    pub exit_code: Option<i32>,
    pub stdout: String,
    pub stderr: String,
}

/// Reports on a finished launcher, whose output streams are GBK-encoded
/// bytes (the code page of the consoles that run it).
pub fn launch_report(success: bool, exit_code: Option<i32>, stdout: &Vec<u8>, stderr: &Vec<u8>) -> (r:
    LaunchReport)
    requires
        stdout@.len() <= usize::MAX / 8,
        stderr@.len() <= usize::MAX / 8,
    ensures
        r.launched == success,
        r.exit_code == exit_code,
        r.stdout@ == gbk_text(stdout@),
        r.stderr@ == gbk_text(stderr@),
        all_ascii(stdout@) ==> same_chars(stdout@, r.stdout@),
        all_ascii(stderr@) ==> same_chars(stderr@, r.stderr@),
{
    let out = decode_gbk(stdout);
    let err = decode_gbk(stderr);
    LaunchReport { launched: success, exit_code, stdout: out, stderr: err }
}

} // verus!
