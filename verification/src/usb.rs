//! Text commands arriving over the USB serial port.
use vstd::prelude::*;

verus! {

/// The bytes of `needle` stand in `haystack` at position `at`.
pub open spec fn occurs_at(haystack: Seq<u8>, needle: Seq<u8>, at: int) -> bool {
    0 <= at && at + needle.len() <= haystack.len() && haystack.subrange(at, at + needle.len()) == needle
}

/// `needle` occurs somewhere in `haystack` (the empty needle everywhere).
pub open spec fn contains_bytes(haystack: Seq<u8>, needle: Seq<u8>) -> bool {
    exists|at: int| #[trigger] occurs_at(haystack, needle, at)
}

/// The command that toggles the LED: the text `toggle`.
pub open spec fn toggle_command() -> Seq<u8> {
    seq![0x74u8, 0x6f, 0x67, 0x67, 0x6c, 0x65]
}

/// The text that the boot loader answers: `hi`.
pub open spec fn greeting_command() -> Seq<u8> {
    seq![0x68u8, 0x69]
}

/// The boot loader's answer: `hello`.
pub open spec fn greeting_reply() -> Seq<u8> {
    seq![0x68u8, 0x65, 0x6c, 0x6c, 0x6f]
}

/// A message of `count` bytes read into `buf` carries `word`: it is not
/// empty, it is well-formed UTF-8 text, and the text contains `word`.
pub open spec fn message_has(buf: Seq<u8>, count: int, word: Seq<u8>) -> bool {
    let message = buf.subrange(0, count);
    &&& count > 0
    &&& vstd::utf8::valid_utf8(message)
    &&& contains_bytes(message, word)
}

/// `core::str::from_utf8`: it succeeds exactly on well-formed UTF-8 (no
/// stray continuation bytes, no overlong forms, no surrogates, nothing above
/// U+10FFFF), which is what `valid_utf8` states.
#[verifier::external_body]
fn is_utf8(bytes: &[u8]) -> (r: bool)
    ensures
        r == vstd::utf8::valid_utf8(bytes@),
{
    core::str::from_utf8(bytes).is_ok()
}

fn occurs_at_exec(haystack: &[u8], needle: &[u8], at: usize) -> (r: bool)
    requires
        at + needle.len() <= haystack.len(),
    ensures
        r == occurs_at(haystack@, needle@, at as int),
{
    let mut j: usize = 0;
    while j < needle.len()
        invariant
            j <= needle.len(),
            at + needle.len() <= haystack.len(),
            forall|k: int| 0 <= k < j ==> haystack@[at + k] == needle@[k],
        decreases needle.len() - j,
    {
        if haystack[at + j] != needle[j] {
            proof {
                let s = haystack@.subrange(at as int, at + needle.len());
                assert(s[j as int] != needle@[j as int]);
            }
            return false;
        }
        j = j + 1;
    }
    proof {
        assert(haystack@.subrange(at as int, at + needle.len()) =~= needle@);
    }
    true
}

/// Whether `needle` occurs in `haystack`, as `str::contains` answers for text.
pub fn find_bytes(haystack: &[u8], needle: &[u8]) -> (r: bool)
    ensures
        r == contains_bytes(haystack@, needle@),
{
    if needle.len() > haystack.len() {
        proof {
            assert forall|at: int| !occurs_at(haystack@, needle@, at) by {}
        }
        return false;
    }
    let last = haystack.len() - needle.len();
    let mut i: usize = 0;
    loop
        invariant
            last + needle.len() == haystack.len(),
            i <= last,
            forall|at: int| 0 <= at < i ==> !occurs_at(haystack@, needle@, at),
        ensures
            forall|at: int| 0 <= at <= last ==> !occurs_at(haystack@, needle@, at),
        decreases last - i,
    {
        if occurs_at_exec(haystack, needle, i) {
            assert(occurs_at(haystack@, needle@, i as int));
            return true;
        }
        if i == last {
            break;
        }
        i = i + 1;
    }
    proof {
        assert forall|at: int| !occurs_at(haystack@, needle@, at) by {
            if 0 <= at <= last {
            }
        }
    }
    false
}

fn message_has_exec(buf: &[u8], count: usize, word: &[u8]) -> (r: bool)
    requires
        count <= buf.len(),
    ensures
        r == message_has(buf@, count as int, word@),
{
    if count == 0 {
        return false;
    }
    let message = &buf[0..count];
    assert(message@ == buf@.subrange(0, count as int));
    is_utf8(message) && find_bytes(message, word)
}

/// Whether a message of `count` bytes read into `buf` asks to toggle the LED:
/// it is non-empty UTF-8 text that contains `toggle`.
pub fn usb_toggle_requested(buf: &[u8], count: usize) -> (r: bool)
    requires
        count <= buf.len(),
    ensures
        r == message_has(buf@, count as int, toggle_command()),
{
    let word: [u8; 6] = [0x74, 0x6f, 0x67, 0x67, 0x6c, 0x65];
    assert(word@ == toggle_command());
    message_has_exec(buf, count, &word)
}

/// The boot loader's answer to a message of `count` bytes read into `buf`:
/// `hello` when the message is non-empty UTF-8 text that contains `hi`,
/// nothing otherwise.
pub fn usb_bootloader_reply(buf: &[u8], count: usize) -> (r: Option<[u8; 5]>)
    requires
        count <= buf.len(),
    ensures
        r is Some <==> message_has(buf@, count as int, greeting_command()),
        r matches Some(reply) ==> reply@ == greeting_reply(),
{
    let word: [u8; 2] = [0x68, 0x69];
    assert(word@ == greeting_command());
    if message_has_exec(buf, count, &word) {
        let reply: [u8; 5] = [0x68, 0x65, 0x6c, 0x6c, 0x6f];
        assert(reply@ == greeting_reply());
        Some(reply)
    } else {
        None
    }
}

} // verus!
