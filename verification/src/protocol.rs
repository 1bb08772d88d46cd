//! The command protocol: the scratch-variable convention and the sentence
//! and text conventions around a session.
//!
//! A session fetches an expression's value by executing an assignment of the
//! expression to one reserved, engine-resident scratch name and then
//! describing that name. The scratch slot is a single shared resource per
//! session: interleaved fetches race on it and callers must serialize, but
//! sequential fetches are isolated — see [`lemma_scratch_isolation`].

use vstd::prelude::*;
use vstd::string::{StrSliceExecFns, StringExecFns, StringSliceAdditionalSpecFns};

use crate::error::JError;
use crate::value::JVal;

verus! {

/// The engine-resident name reserved for shuttling expression results out
/// of the engine.
pub open spec fn scratch_name() -> Seq<char> {
    "RESULT_jrs_"@
}

/// The reserved scratch variable's name, the one a fetched expression's
/// result is described under.
pub fn scratch_var() -> (r: &'static str)
    ensures
        r@ == scratch_name(),
{
    "RESULT_jrs_"
}

/// The sentence that binds an expression to the scratch name.
pub open spec fn assignment_of(expr: Seq<char>) -> Seq<char> {
    scratch_name() + " =: "@ + expr
}

/// Builds the sentence that binds `expr` to the scratch name: the first
/// half of fetching an expression's value, executed before the scratch
/// name is described.
pub fn assignment_sentence(expr: &str) -> (r: String)
    ensures
        r@ == assignment_of(expr@),
{
    let mut s = String::new();
    s.append("RESULT_jrs_");
    s.append(" =: ");
    s.append(expr);
    proof {
        assert(s@ =~= assignment_of(expr@));
    }
    s
}

/// The sentence that tells a fresh session where the engine's own profile
/// files live.
pub open spec fn binpath_of(path: Seq<char>) -> Seq<char> {
    "BINPATH_z_ =: '"@ + path + "'"@
}

/// Builds the sentence that binds the engine's binary directory, executed
/// once right after the engine is initialized.
pub fn binpath_sentence(path: &str) -> (r: String)
    ensures
        r@ == binpath_of(path@),
{
    let mut s = String::new();
    s.append("BINPATH_z_ =: '");
    s.append(path);
    s.append("'");
    proof {
        assert(s@ =~= binpath_of(path@));
    }
    s
}

/// Captured output with the engine's single trailing line terminator
/// stripped; text without one is left as it stands.
pub open spec fn stripped(out: Seq<char>) -> Seq<char> {
    if out.len() > 0 && out.last() == '\n' {
        out.drop_last()
    } else {
        out
    }
}

/// Strips the one line terminator the engine appends to its captured
/// output, by the protocol's convention.
pub fn strip_output(out: &str) -> (r: String)
    ensures
        r@ == stripped(out@),
{
    let n = out.unicode_len();
    if n > 0 && out.get_char(n - 1) == '\n' {
        let t = out.substring_char(0, n - 1);
        proof {
            assert(t@ =~= out@.drop_last());
        }
        t.to_owned()
    } else {
        out.to_owned()
    }
}

/// Builds the byte form a sentence takes on its way to the engine's C
/// interface: the text's bytes with one terminator byte appended.
///
/// A sentence with an embedded terminator byte cannot be carried over that
/// interface and is refused — if and only if one is embedded.
pub fn sentence_bytes(s: &str) -> (r: Result<Vec<u8>, JError>)
    ensures
        match r {
            Ok(v) => {
                &&& v@ == s.spec_bytes().push(0u8)
                &&& forall|i: int| 0 <= i < s.spec_bytes().len() ==> s.spec_bytes()[i] != 0
            },
            Err(e) => {
                &&& e is EmbeddedNul
                &&& exists|i: int| 0 <= i < s.spec_bytes().len() && s.spec_bytes()[i] == 0
            },
        },
{
    let b = s.as_bytes();
    let mut out: Vec<u8> = Vec::new();
    let mut i: usize = 0;
    while i < b.len()
        invariant
            i <= b@.len(),
            b@ == s.spec_bytes(),
            out@ == b@.take(i as int),
            forall|j: int| 0 <= j < i ==> b@[j] != 0,
        decreases b@.len() - i,
    {
        let c = b[i];
        if c == 0 {
            return Err(JError::EmbeddedNul);
        }
        out.push(c);
        proof {
            assert(out@ =~= b@.take(i + 1 as int));
        }
        i = i + 1;
    }
    out.push(0);
    proof {
        assert(b@.take(b@.len() as int) =~= b@);
        assert(out@ =~= s.spec_bytes().push(0u8));
    }
    Ok(out)
}

/// The engine library's directory: the configured home where one is set,
/// else the current working directory by convention.
pub fn engine_home(home: Option<String>) -> (r: String)
    ensures
        match home {
            Some(h) => r@ == h@,
            None => r@ == "."@,
        },
{
    match home {
        Some(h) => h,
        None => ".".to_owned(),
    }
}

/// Law: sequential fetches are isolated.
///
/// Model the engine's variable store as a map from names to values. A fetch
/// touches the store only by binding the scratch name, so of two fetches run
/// in sequence, the second simply overwrites the first's scratch binding —
/// the store ends as if only the second had run — and every unrelated name
/// keeps exactly the binding it had before. Neither fetch observes the
/// other's leftover beyond the one reserved name.
pub proof fn lemma_scratch_isolation(store: Map<Seq<char>, JVal>, v1: JVal, v2: JVal)
    ensures
        store.insert(scratch_name(), v1).insert(scratch_name(), v2)
            =~= store.insert(scratch_name(), v2),
        store.insert(scratch_name(), v1).dom() =~= store.dom().insert(scratch_name()),
        forall|n: Seq<char>|
            n != scratch_name() && store.dom().contains(n)
                ==> #[trigger] store.insert(scratch_name(), v1)[n] == store[n],
{
}

} // verus!
