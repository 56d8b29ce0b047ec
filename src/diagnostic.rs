//! Diagnostic logs of failed compiles and links.

use vstd::prelude::*;
use vstd::utf8::{decode_utf8, valid_utf8};

verus! {

/// The diagnostic log of a failed compile or link.
#[derive(Debug, PartialEq, Eq)]
pub enum DiagnosticLog {
    /// The log, decoded as text.
    Text(String),
    /// The log's bytes, which are not valid UTF-8.
    NotUtf8(Vec<u8>),
}

/// The bytes before the first NUL byte, or all of them when there is none.
pub open spec fn until_nul(bytes: Seq<u8>) -> Seq<u8>
    decreases bytes.len(),
{
    if bytes.len() == 0 || bytes[0] == 0 {
        Seq::empty()
    } else {
        seq![bytes[0]] + until_nul(bytes.drop_first())
    }
}

/// `log` is what a driver log made of `bytes` reads as.
pub open spec fn describes(log: DiagnosticLog, bytes: Seq<u8>) -> bool {
    let text = until_nul(bytes);
    if valid_utf8(text) {
        log matches DiagnosticLog::Text(s) && s@ == decode_utf8(text)
    } else {
        log matches DiagnosticLog::NotUtf8(b) && b@ == text
    }
}

proof fn lemma_until_nul(bytes: Seq<u8>, n: int)
    requires
        0 <= n <= bytes.len(),
        forall|j: int| 0 <= j < n ==> bytes[j] != 0,
        n == bytes.len() || bytes[n] == 0,
    ensures
        until_nul(bytes) == bytes.take(n),
    decreases n,
{
    if n == 0 {
        assert(bytes.take(0) =~= Seq::<u8>::empty());
    } else {
        let rest = bytes.drop_first();
        assert forall|j: int| 0 <= j < n - 1 implies rest[j] != 0 by {
            assert(rest[j] == bytes[j + 1]);
        }
        if n < bytes.len() {
            assert(rest[n - 1] == bytes[n]);
        }
        lemma_until_nul(rest, n - 1);
        assert(bytes.take(n) =~= seq![bytes[0]] + rest.take(n - 1));
    }
}

/// Relies on String::from_utf8: it accepts exactly the valid UTF-8 byte
/// sequences and returns the characters they encode.
#[verifier::external_body]
fn string_from_utf8(bytes: Vec<u8>) -> (r: Option<String>)
    ensures
        r is Some <==> valid_utf8(bytes@),
        r matches Some(s) ==> s@ == decode_utf8(bytes@),
{
    String::from_utf8(bytes).ok()
}

impl DiagnosticLog {
    /// Reads a log as the driver wrote it: the text ends at the first NUL byte.
    pub fn from_bytes(bytes: &[u8]) -> (r: DiagnosticLog)
        ensures
            describes(r, bytes@),
    {
        let mut text: Vec<u8> = Vec::new();
        let mut i: usize = 0;
        while i < bytes.len() && bytes[i] != 0
            invariant
                i <= bytes@.len(),
                forall|j: int| 0 <= j < i ==> bytes@[j] != 0,
                text@ == bytes@.take(i as int),
            decreases bytes@.len() - i,
        {
            text.push(bytes[i]);
            i = i + 1;
            assert(text@ =~= bytes@.take(i as int));
        }
        proof {
            lemma_until_nul(bytes@, i as int);
        }
        let ghost text_bytes = text@;
        match string_from_utf8(text) {
            Some(s) => DiagnosticLog::Text(s),
            None => {
                let mut raw: Vec<u8> = Vec::new();
                let mut k: usize = 0;
                while k < i
                    invariant
                        i <= bytes@.len(),
                        k <= i,
                        raw@ == bytes@.take(k as int),
                    decreases i - k,
                {
                    raw.push(bytes[k]);
                    k = k + 1;
                    assert(raw@ =~= bytes@.take(k as int));
                }
                DiagnosticLog::NotUtf8(raw)
            },
        }
    }
}

} // verus!
