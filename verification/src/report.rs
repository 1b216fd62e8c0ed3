//! What the user is shown of an error: the kind and message of the outermost
//! failure and, condensed to their kinds, the failures that caused it.
//! Context that the foreign runtime attached is never shown.

use crate::error::ErrorKind;
use crate::error::ErrorLink;
use crate::error::ErrorRecord;
use crate::error::KindView;
use vstd::prelude::*;
use vstd::string::*;

verus! {

/// The character of a decimal digit.
pub open spec fn digit_char(digit: int) -> char {
    if digit == 0 {
        '0'
    } else if digit == 1 {
        '1'
    } else if digit == 2 {
        '2'
    } else if digit == 3 {
        '3'
    } else if digit == 4 {
        '4'
    } else if digit == 5 {
        '5'
    } else if digit == 6 {
        '6'
    } else if digit == 7 {
        '7'
    } else if digit == 8 {
        '8'
    } else {
        '9'
    }
}

/// A natural number in decimal, without leading zeros.
pub open spec fn decimal(n: nat) -> Seq<char>
    decreases n,
{
    if n < 10 {
        seq![digit_char(n as int)]
    } else {
        decimal(n / 10).push(digit_char((n % 10) as int))
    }
}

/// An integer in decimal, with a minus sign where it is negative.
pub open spec fn signed_decimal(i: int) -> Seq<char> {
    if i < 0 {
        seq!['-'] + decimal((-i) as nat)
    } else {
        decimal(i as nat)
    }
}

/// How a kind is shown: its name, with the exit code or the foreign type
/// name in parentheses where it carries one.
pub open spec fn kind_label(kind: KindView) -> Seq<char> {
    match kind {
        KindView::InvalidRequest => "InvalidRequest"@,
        KindView::DuplicateTask => "DuplicateTask"@,
        KindView::UnknownTool => "UnknownTool"@,
        KindView::Timeout => "Timeout"@,
        KindView::Cancelled => "Cancelled"@,
        KindView::ProcessFailure(code) => "ProcessFailure("@ + signed_decimal(code as int) + ")"@,
        KindView::OutputLimitExceeded => "OutputLimitExceeded"@,
        KindView::DecodeError => "DecodeError"@,
        KindView::UnsupportedSchema => "UnsupportedSchema"@,
        KindView::TypeMismatch => "TypeMismatch"@,
        KindView::EnvError => "EnvError"@,
        KindView::PathError => "PathError"@,
        KindView::ForeignUnmapped(name) => "ForeignUnmapped("@ + name + ")"@,
    }
}

/// The causes of a failure, condensed: each one's kind behind an arrow.
pub open spec fn cause_trail(causes: Seq<ErrorLink>) -> Seq<char>
    decreases causes.len(),
{
    if causes.len() == 0 {
        Seq::<char>::empty()
    } else {
        " <- "@ + kind_label(causes[0].kind) + cause_trail(causes.drop_first())
    }
}

/// The report of an error chain: kind and message of the outermost failure,
/// then the condensed causes.
pub open spec fn report_of(chain: Seq<ErrorLink>) -> Seq<char> {
    kind_label(chain[0].kind) + ": "@ + chain[0].message + cause_trail(chain.drop_first())
}

/// The text of one decimal digit.
fn digit_text(digit: u32) -> (r: &'static str)
    requires
        digit < 10,
    ensures
        r@ == seq![digit_char(digit as int)],
{
    proof {
        reveal_strlit("0");
        reveal_strlit("1");
        reveal_strlit("2");
        reveal_strlit("3");
        reveal_strlit("4");
        reveal_strlit("5");
        reveal_strlit("6");
        reveal_strlit("7");
        reveal_strlit("8");
        reveal_strlit("9");
    }
    let r = if digit == 0 {
        "0"
    } else if digit == 1 {
        "1"
    } else if digit == 2 {
        "2"
    } else if digit == 3 {
        "3"
    } else if digit == 4 {
        "4"
    } else if digit == 5 {
        "5"
    } else if digit == 6 {
        "6"
    } else if digit == 7 {
        "7"
    } else if digit == 8 {
        "8"
    } else {
        "9"
    };
    assert(r@ =~= seq![digit_char(digit as int)]);
    r
}

/// Appends a natural number in decimal.
fn append_decimal(out: &mut String, n: u32)
    ensures
        final(out)@ == old(out)@ + decimal(n as nat),
    decreases n,
{
    if n >= 10 {
        append_decimal(out, n / 10);
    }
    out.append(digit_text(n % 10));
    assert(out@ =~= old(out)@ + decimal(n as nat));
}

/// Appends how a kind is shown.
fn append_label(out: &mut String, kind: &ErrorKind)
    ensures
        final(out)@ == old(out)@ + kind_label(kind@),
{
    match kind {
        ErrorKind::InvalidRequest => out.append("InvalidRequest"),
        ErrorKind::DuplicateTask => out.append("DuplicateTask"),
        ErrorKind::UnknownTool => out.append("UnknownTool"),
        ErrorKind::Timeout => out.append("Timeout"),
        ErrorKind::Cancelled => out.append("Cancelled"),
        ErrorKind::ProcessFailure(code) => {
            out.append("ProcessFailure(");
            let ghost opened = out@;
            if *code < 0 {
                proof {
                    reveal_strlit("-");
                }
                out.append("-");
                let magnitude: u32 = (-(*code as i64)) as u32;
                append_decimal(out, magnitude);
                assert(out@ =~= opened + signed_decimal(*code as int));
            } else {
                append_decimal(out, *code as u32);
            }
            out.append(")");
            assert(out@ =~= old(out)@ + kind_label(kind@));
        },
        ErrorKind::OutputLimitExceeded => out.append("OutputLimitExceeded"),
        ErrorKind::DecodeError => out.append("DecodeError"),
        ErrorKind::UnsupportedSchema => out.append("UnsupportedSchema"),
        ErrorKind::TypeMismatch => out.append("TypeMismatch"),
        ErrorKind::EnvError => out.append("EnvError"),
        ErrorKind::PathError => out.append("PathError"),
        ErrorKind::ForeignUnmapped(name) => {
            out.append("ForeignUnmapped(");
            out.append(name.as_str());
            out.append(")");
            assert(out@ =~= old(out)@ + kind_label(kind@));
        },
    }
}

/// Appends the condensed form of a failure and of all that caused it.
fn append_trail(out: &mut String, cause: &ErrorRecord)
    ensures
        final(out)@ == old(out)@ + cause_trail(cause@),
    decreases cause,
{
    out.append(" <- ");
    append_label(out, &cause.kind);
    proof {
        cause.lemma_chain_head();
    }
    match &cause.cause {
        None => {
            assert(cause@.drop_first() =~= Seq::<ErrorLink>::empty());
            assert(cause_trail(cause@.drop_first()) =~= Seq::<char>::empty());
        },
        Some(inner) => {
            assert(cause@.drop_first() =~= inner@);
            append_trail(out, inner);
        },
    }
    assert(out@ =~= old(out)@ + cause_trail(cause@));
}

impl ErrorKind {
    /// How the kind is shown to the user.
    pub fn label(&self) -> (r: String)
        ensures
            r@ == kind_label(self@),
    {
        let mut r = String::new();
        append_label(&mut r, self);
        assert(r@ =~= kind_label(self@));
        r
    }
}

impl ErrorRecord {
    /// What the user is shown of this error.
    pub fn report(&self) -> (r: String)
        ensures
            r@ == report_of(self@),
    {
        let mut r = String::new();
        append_label(&mut r, &self.kind);
        r.append(": ");
        r.append(self.message.as_str());
        proof {
            self.lemma_chain_head();
        }
        match &self.cause {
            None => {
                assert(self@.drop_first() =~= Seq::<ErrorLink>::empty());
                assert(cause_trail(self@.drop_first()) =~= Seq::<char>::empty());
            },
            Some(inner) => {
                assert(self@.drop_first() =~= inner@);
                append_trail(&mut r, inner);
            },
        }
        assert(r@ =~= report_of(self@));
        r
    }
}

} // verus!
