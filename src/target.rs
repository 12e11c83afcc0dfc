//! What to capture and with which backend.

use vstd::prelude::*;
use vstd::string::StringSliceAdditionalSpecFns;
use crate::error::CaptureError;

verus! {

/// The value of a hexadecimal digit byte, if it is one.
pub open spec fn hex_digit(b: u8) -> Option<nat> {
    if 48 <= b <= 57 {
        Some((b - 48) as nat)
    } else if 97 <= b <= 102 {
        Some((b - 87) as nat)
    } else if 65 <= b <= 70 {
        Some((b - 55) as nat)
    } else {
        None
    }
}

/// `s` is a non-empty run of hexadecimal digits.
pub open spec fn is_hex(s: Seq<u8>) -> bool {
    s.len() > 0 && forall|i: int| 0 <= i < s.len() ==> (#[trigger] hex_digit(s[i])) is Some
}

/// The number that the hexadecimal digits `s` spell, most significant first.
pub open spec fn hex_value(s: Seq<u8>) -> nat
    decreases s.len(),
{
    if s.len() == 0 {
        0
    } else {
        hex_value(s.drop_last()) * 16 + match hex_digit(s.last()) {
            Some(d) => d,
            None => 0,
        }
    }
}

/// `s` without one leading `0x`.
pub open spec fn strip_hex_prefix(s: Seq<u8>) -> Seq<u8> {
    if s.len() >= 2 && s[0] == 48 && s[1] == 120 {
        s.subrange(2, s.len() as int)
    } else {
        s
    }
}

/// The window identifier that the text `s` names, if it is well formed.
pub open spec fn window_id_of(s: Seq<u8>) -> Option<u64> {
    let d = strip_hex_prefix(s);
    if is_hex(d) && hex_value(d) <= u64::MAX {
        Some(hex_value(d) as u64)
    } else {
        None
    }
}

proof fn lemma_hex_value_grows(s: Seq<u8>, j: int, k: int)
    requires
        0 <= j <= k <= s.len(),
    ensures
        hex_value(s.take(j)) <= hex_value(s.take(k)),
    decreases k - j,
{
    if j < k {
        lemma_hex_value_grows(s, j, k - 1);
        assert(s.take(k).drop_last() =~= s.take(k - 1));
    }
}

fn digit_value(b: u8) -> (r: Option<u64>)
    ensures
        r is Some <==> hex_digit(b) is Some,
        r is Some ==> r->0 == hex_digit(b)->0,
{
    if 48 <= b && b <= 57 {
        Some((b - 48) as u64)
    } else if 97 <= b && b <= 102 {
        Some((b - 87) as u64)
    } else if 65 <= b && b <= 70 {
        Some((b - 55) as u64)
    } else {
        None
    }
}

/// Parses a window identifier: hexadecimal digits with an optional `0x` in
/// front. Anything else, or a value beyond 64 bits, is an invalid target.
pub fn parse_window_id(s: &str) -> (r: Result<u64, CaptureError>)
    ensures
        match window_id_of(s.spec_bytes()) {
            Some(v) => r == Ok::<u64, CaptureError>(v),
            None => r == Err::<u64, CaptureError>(CaptureError::InvalidTarget),
        },
{
    let b = s.as_bytes();
    let n = b.len();
    let start: usize = if n >= 2 && b[0] == 48 && b[1] == 120 { 2 } else { 0 };
    let ghost d = strip_hex_prefix(b@);
    assert(d =~= b@.subrange(start as int, n as int));
    if start == n {
        return Err(CaptureError::InvalidTarget);
    }
    let mut v: u64 = 0;
    let mut i: usize = start;
    while i < n
        invariant
            b@ == s.spec_bytes(),
            n == b@.len(),
            d =~= b@.subrange(start as int, n as int),
            d == strip_hex_prefix(b@),
            start <= i <= n,
            start < n,
            v == hex_value(d.take(i - start)),
            forall|j: int| 0 <= j < i - start ==> (#[trigger] hex_digit(d[j])) is Some,
        decreases n - i,
    {
        assert(d.take(i - start + 1).drop_last() =~= d.take(i - start));
        assert(d[i - start] == b@[i as int]);
        assert(d.take(i - start + 1).last() == b@[i as int]);
        let dig = match digit_value(b[i]) {
            Some(x) => x,
            None => {
                assert(hex_digit(d[i - start]) is None);
                assert(!is_hex(d));
                return Err(CaptureError::InvalidTarget);
            },
        };
        let next = match v.checked_mul(16) {
            Some(m) => m.checked_add(dig),
            None => None,
        };
        match next {
            Some(x) => {
                v = x;
            },
            None => {
                proof {
                    assert(hex_value(d.take(i - start + 1)) == v * 16 + dig);
                    assert(hex_value(d.take(i - start + 1)) > u64::MAX);
                    lemma_hex_value_grows(d, i - start + 1, d.len() as int);
                    assert(d.take(d.len() as int) =~= d);
                }
                return Err(CaptureError::InvalidTarget);
            },
        }
        i += 1;
    }
    assert(d.take(n - start) =~= d);
    Ok(v)
}

/// The window a capture is aimed at.
#[derive(Clone, Copy, Debug, PartialEq, Eq, Structural)]
pub enum WindowTarget {
    /// The whole screen.
    Root,
    /// One window, by identifier.
    Window(u64),
}

/// The target that an optional identifier names: the whole screen when there
/// is none.
pub open spec fn target_of(window: Option<Seq<u8>>) -> Option<WindowTarget> {
    match window {
        None => Some(WindowTarget::Root),
        Some(s) => match window_id_of(s) {
            Some(id) => Some(WindowTarget::Window(id)),
            None => None,
        },
    }
}

/// Resolves an optional window identifier into a capture target.
pub fn window_target(window: Option<&str>) -> (r: Result<WindowTarget, CaptureError>)
    ensures
        match target_of(
            match window {
                Some(s) => Some(s.spec_bytes()),
                None => None,
            },
        ) {
            Some(t) => r == Ok::<WindowTarget, CaptureError>(t),
            None => r == Err::<WindowTarget, CaptureError>(CaptureError::InvalidTarget),
        },
{
    match window {
        None => Ok(WindowTarget::Root),
        Some(s) => match parse_window_id(s) {
            Ok(id) => Ok(WindowTarget::Window(id)),
            Err(e) => Err(e),
        },
    }
}

/// Which capture backend to use.
#[derive(Clone, Copy, Debug, PartialEq, Eq, Structural)]
pub enum Backend {
    /// The windowing system's compositing pipeline.
    XLib,
    /// The raw framebuffer device.
    FrameBuffer,
    /// The default choice, which is the compositing pipeline.
    Default,
}

/// The backend that a selector name picks: `fb` and `xlib` by name, the
/// default for anything else or for no name.
pub open spec fn backend_of(name: Option<Seq<u8>>) -> Backend {
    match name {
        Some(s) => if s =~= seq![102u8, 98u8] {
            Backend::FrameBuffer
        } else if s =~= seq![120u8, 108u8, 105u8, 98u8] {
            Backend::XLib
        } else {
            Backend::Default
        },
        None => Backend::Default,
    }
}

fn bytes_equal(a: &[u8], b: &[u8]) -> (r: bool)
    ensures
        r == (a@ =~= b@),
{
    if a.len() != b.len() {
        return false;
    }
    let mut i: usize = 0;
    while i < a.len()
        invariant
            a@.len() == b@.len(),
            0 <= i <= a@.len(),
            forall|j: int| 0 <= j < i ==> a@[j] == b@[j],
        decreases a@.len() - i,
    {
        if a[i] != b[i] {
            return false;
        }
        i += 1;
    }
    true
}

impl<'a> From<Option<&'a str>> for Backend {
    fn from(name: Option<&'a str>) -> (r: Backend)
        ensures
            r == backend_of(
                match name {
                    Some(s) => Some(s.spec_bytes()),
                    None => None,
                },
            ),
    {
        match name {
            Some(s) => {
                let b = s.as_bytes();
                let fb: [u8; 2] = [102, 98];
                let xlib: [u8; 4] = [120, 108, 105, 98];
                if bytes_equal(b, fb.as_slice()) {
                    Backend::FrameBuffer
                } else if bytes_equal(b, xlib.as_slice()) {
                    Backend::XLib
                } else {
                    Backend::Default
                }
            },
            None => Backend::Default,
        }
    }
}

impl<'a> vstd::std_specs::convert::FromSpecImpl<Option<&'a str>> for Backend {
    open spec fn obeys_from_spec() -> bool {
        true
    }

    open spec fn from_spec(name: Option<&'a str>) -> Backend {
        backend_of(
            match name {
                Some(s) => Some(s.spec_bytes()),
                None => None,
            },
        )
    }
}

} // verus!
