//! The verified edges of the script evaluation sandbox.
//!
//! The generation upstream publishes its payload as executable script
//! state. The pipeline strips newline and tab control characters from
//! the fetched text, appends a fixed epilogue that serializes the five
//! expected variables into one JSON object, and hands the combined
//! script to an isolated interpreter. Building that script is verified
//! here; running it is interpreter work outside the library, whose
//! string result feeds `normalize::parse_generation_payload`.

use vstd::prelude::*;
use vstd::string::StringExecFns;

verus! {

/// Whether the cleaner keeps a character: everything but newline and tab.
pub open spec fn keeps_char(c: char) -> bool {
    c != '\n' && c != '\t'
}

/// The cleaned form of script text: its characters in order, newline and
/// tab dropped, nothing else touched.
pub open spec fn clean_model(s: Seq<char>) -> Seq<char> {
    s.filter(|c: char| keeps_char(c))
}

/// Relies on `String::push`: appends exactly one character.
#[verifier::external_body]
pub(crate) fn push_char(s: &mut String, c: char)
    ensures
        final(s)@ == old(s)@.push(c),
{
    s.push(c);
}

/// Strips newline and tab characters from fetched script text.
#[verifier::loop_isolation(false)]
pub fn clean_script(s: &str) -> (r: String)
    ensures
        r@ == clean_model(s@),
{
    proof {
        reveal(Seq::filter);
    }
    let n = s.unicode_len();
    let mut out = String::new();
    let mut i: usize = 0;
    while i < n
        invariant
            0 <= i <= s@.len(),
            n == s@.len(),
            out@ == clean_model(s@.take(i as int)),
        decreases s@.len() - i,
    {
        let c = s.get_char(i);
        if !(c == '\n' || c == '\t') {
            push_char(&mut out, c);
        }
        proof {
            reveal(Seq::filter);
            assert(s@.take(i + 1 as int).drop_last() =~= s@.take(i as int));
            assert(s@.take(i + 1 as int).last() == s@[i as int]);
        }
        i = i + 1;
    }
    proof {
        assert(s@.take(s@.len() as int) =~= s@);
    }
    out
}

/// The fixed epilogue: one expression serializing the five variables the
/// upstream script is expected to define.
pub open spec fn epilogue_model() -> Seq<char> {
    "JSON.stringify({dataFechaAcualizado,dataFuelCost,dataByFuel,dataMetrics,dataLoadPerSite});"@
}

/// The epilogue text appended to every cleaned script.
pub fn eval_epilogue() -> (r: &'static str)
    ensures
        r@ == epilogue_model(),
{
    "JSON.stringify({dataFechaAcualizado,dataFuelCost,dataByFuel,dataMetrics,dataLoadPerSite});"
}

/// Builds the script the sandbox runs: the cleaned upstream text, one
/// space, then the fixed epilogue.
pub fn build_eval_script(s: &str) -> (r: String)
    ensures
        r@ == clean_model(s@) + " "@ + epilogue_model(),
{
    let mut out = clean_script(s);
    out.append(" ");
    out.append(eval_epilogue());
    out
}

/// Law: cleaning is idempotent — cleaned text is unchanged by cleaning
/// again, so the normalization never distorts already-clean scripts.
pub proof fn lemma_clean_idempotent(s: Seq<char>)
    ensures
        clean_model(clean_model(s)) == clean_model(s),
    decreases s.len(),
{
    reveal(Seq::filter);
    if s.len() > 0 {
        lemma_clean_idempotent(s.drop_last());
        if keeps_char(s.last()) {
            assert((clean_model(s.drop_last()).push(s.last())).drop_last() =~= clean_model(
                s.drop_last(),
            ));
            assert((clean_model(s.drop_last()).push(s.last())).last() == s.last());
        }
    }
}

/// Law: cleaning keeps every kept character in order and drops only
/// newline and tab — text free of both is relayed unchanged.
pub proof fn lemma_clean_preserves_clean_text(s: Seq<char>)
    requires
        forall|i: int| 0 <= i < s.len() ==> keeps_char(#[trigger] s[i]),
    ensures
        clean_model(s) == s,
    decreases s.len(),
{
    reveal(Seq::filter);
    if s.len() > 0 {
        lemma_clean_preserves_clean_text(s.drop_last());
        assert(clean_model(s.drop_last()).push(s.last()) =~= s);
    }
}

} // verus!
