//! Environment variables, as text. The operating system hands them over as
//! bytes; the bridge works with them only once every one of them reads as
//! UTF-8.

use crate::error::native_failure;
use crate::error::ErrorKind;
use crate::error::ErrorRecord;
use crate::error::KindView;
use crate::text::decode_text;
use crate::text::same_text;
use vstd::prelude::*;
use vstd::utf8::*;

verus! {

/// The bytes of each raw variable: name, then value.
pub open spec fn raw_views(raw: Seq<(Vec<u8>, Vec<u8>)>) -> Seq<(Seq<u8>, Seq<u8>)> {
    raw.map_values(|entry: (Vec<u8>, Vec<u8>)| (entry.0@, entry.1@))
}

/// The text of each variable: name, then value.
pub open spec fn var_views(vars: Seq<(String, String)>) -> Seq<(Seq<char>, Seq<char>)> {
    vars.map_values(|entry: (String, String)| (entry.0@, entry.1@))
}

/// Whether both the name and the value of a raw variable are UTF-8.
pub open spec fn is_text(entry: (Seq<u8>, Seq<u8>)) -> bool {
    valid_utf8(entry.0) && valid_utf8(entry.1)
}

/// The text that a raw variable spells.
pub open spec fn as_text(entry: (Seq<u8>, Seq<u8>)) -> (Seq<char>, Seq<char>) {
    (decode_utf8(entry.0), decode_utf8(entry.1))
}

/// The value bound to `name`: that of the first variable so named.
pub open spec fn binding(vars: Seq<(Seq<char>, Seq<char>)>, name: Seq<char>) -> Option<Seq<char>>
    decreases vars.len(),
{
    if vars.len() == 0 {
        None
    } else if vars[0].0 == name {
        Some(vars[0].1)
    } else {
        binding(vars.drop_first(), name)
    }
}

/// Access to the environment of the process.
#[derive(Debug, Clone, Copy, PartialEq, Eq)]
pub struct EnvironmentManager;

impl EnvironmentManager {
    pub fn new() -> (r: Self)
        ensures
            r == EnvironmentManager,
    {
        EnvironmentManager
    }

    /// Turns the raw environment into text, variable by variable and in the
    /// same order. If any name or value is not UTF-8 the whole environment
    /// is refused as `EnvError`.
    pub fn get_env_vars(raw: &Vec<(Vec<u8>, Vec<u8>)>) -> (r: Result<
        Vec<(String, String)>,
        ErrorRecord,
    >)
        ensures
            match r {
                Ok(vars) => {
                    &&& forall|i: int| 0 <= i < raw@.len() ==> is_text(#[trigger] raw_views(raw@)[i])
                    &&& var_views(vars@) == raw_views(raw@).map_values(
                        |entry: (Seq<u8>, Seq<u8>)| as_text(entry),
                    )
                },
                Err(e) => {
                    &&& exists|i: int| 0 <= i < raw@.len() && !is_text(#[trigger] raw_views(raw@)[i])
                    &&& e@ == native_failure(
                        KindView::EnvError,
                        "environment variable is not UTF-8"@,
                    )
                },
            },
    {
        let mut vars: Vec<(String, String)> = Vec::new();
        let mut i: usize = 0;
        while i < raw.len()
            invariant
                i <= raw.len(),
                vars@.len() == i,
                forall|k: int| 0 <= k < i ==> is_text(#[trigger] raw_views(raw@)[k]),
                forall|k: int|
                    0 <= k < i ==> (#[trigger] var_views(vars@)[k]) == as_text(raw_views(raw@)[k]),
            decreases raw.len() - i,
        {
            let entry = &raw[i];
            let name = decode_text(entry.0.as_slice());
            let value = decode_text(entry.1.as_slice());
            match (name, value) {
                (Some(name), Some(value)) => {
                    let ghost before = vars@;
                    vars.push((name, value));
                    assert forall|k: int| 0 <= k < i + 1 implies (#[trigger] var_views(vars@)[k])
                        == as_text(raw_views(raw@)[k]) by {
                        if k < i {
                            assert(var_views(before)[k] == as_text(raw_views(raw@)[k]));
                        }
                    }
                },
                _ => {
                    assert(!is_text(raw_views(raw@)[i as int]));
                    return Err(
                        ErrorRecord::new(ErrorKind::EnvError, "environment variable is not UTF-8"),
                    );
                },
            }
            i += 1;
        }
        assert(var_views(vars@) =~= raw_views(raw@).map_values(
            |entry: (Seq<u8>, Seq<u8>)| as_text(entry),
        ));
        Ok(vars)
    }

    /// Looks a variable up by name. Where a name occurs more than once the
    /// first occurrence counts.
    pub fn lookup(vars: &Vec<(String, String)>, name: &str) -> (r: Option<String>)
        ensures
            match r {
                Some(value) => binding(var_views(vars@), name@) == Some(value@),
                None => binding(var_views(vars@), name@) is None,
            },
    {
        let ghost all = var_views(vars@);
        assert(all.subrange(0, all.len() as int) =~= all);
        let mut i: usize = 0;
        while i < vars.len()
            invariant
                i <= vars.len(),
                all == var_views(vars@),
                binding(all, name@) == binding(all.subrange(i as int, all.len() as int), name@),
            decreases vars.len() - i,
        {
            let ghost rest = all.subrange(i as int, all.len() as int);
            assert(rest[0] == all[i as int]);
            assert(rest.drop_first() =~= all.subrange(i + 1, all.len() as int));
            if same_text(vars[i].0.as_str(), name) {
                return Some(vars[i].1.clone());
            }
            i += 1;
        }
        assert(all.subrange(i as int, all.len() as int).len() == 0);
        None
    }
}

impl Default for EnvironmentManager {
    fn default() -> (r: Self)
        ensures
            r == EnvironmentManager,
    {
        EnvironmentManager::new()
    }
}

} // verus!
