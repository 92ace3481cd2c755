//! Per-test execution planning: for one materialized test, the scratch
//! directory's reset, the copies of the shared data files, the serialized
//! input document, and the fully substituted engine command line.  The
//! caller performs the filesystem work and launches the process.

use vstd::prelude::*;

use crate::conformance::test::{Test, TestV};
use crate::conformance::test::runner::{join, join_x};
use crate::error::Error;
use crate::shell::{input_token, path_token, replace_all, substitute};

verus! {

broadcast use crate::text::lemma_vec_len_bound, crate::text::lemma_chars_deep_view;

/// The name of the serialized input file written into the scratch directory.
pub open spec fn inputs_name() -> Seq<char> {
    seq!['i', 'n', 'p', 'u', 't', 's', '.', 'j', 's', 'o', 'n']
}

/// The serialized input document of a test: its pretty-printed input, or the
/// empty document when it has none.
pub open spec fn inputs_of(t: TestV) -> Seq<char> {
    match t.input {
        Some(s) => s,
        None => Seq::empty(),
    }
}

/// The planned copies: each data entry from the data directory to the
/// scratch directory, in the order given.
pub open spec fn step_copies(
    names: Seq<Seq<char>>,
    data_dir: Seq<char>,
    scratch: Seq<char>,
) -> Seq<(Seq<char>, Seq<char>)> {
    Seq::new(names.len(), |k: int| (join(data_dir, names[k]), join(scratch, names[k])))
}

/// Everything the caller must do to run one test: recreate the scratch
/// directory, perform the copies, write the input file, and invoke the
/// command through the interpreter.
pub struct StepPlan {
    /// The source and destination of each data-file copy, in order.
    pub copies: Vec<(String, String)>,
    /// The full path of the serialized input file.
    pub inputs_path: String,
    /// The contents of the serialized input file.
    pub inputs_contents: String,
    /// The command line, with both placeholders resolved.
    pub command: String,
}

/// Plans the execution of one materialized test.  Fails only when the shared
/// data directory holds an entry that is not a plain file, which is a
/// contract violation; every well-formed input yields a plan.
pub fn prepare_step(
    test: &Test,
    data_dir: &str,
    entries: &Vec<(String, bool)>,
    scratch: &str,
    template: &str,
) -> (r: Result<StepPlan, Error>)
    requires
        test@.path is Some,
    ensures
        match r {
            Ok(p) => {
                &&& forall|k: int| 0 <= k < entries@.len() ==> (#[trigger] entries@[k]).1
                &&& p.copies.deep_view() == step_copies(
                    Seq::new(entries@.len(), |k: int| entries@[k].0@),
                    data_dir@,
                    scratch@,
                )
                &&& p.inputs_path@ == join(scratch@, inputs_name())
                &&& p.inputs_contents@ == inputs_of(test@)
                &&& p.command@ == replace_all(
                    replace_all(template@, path_token(), test@.path->Some_0),
                    input_token(),
                    p.inputs_path@,
                )
            },
            Err(Error::NonFileDataEntry { name }) => exists|k: int|
                0 <= k < entries@.len() && !(#[trigger] entries@[k]).1 && name@ == entries@[k].0@,
            Err(_) => false,
        },
{
    let mut copies: Vec<(String, String)> = Vec::new();
    let ghost names = Seq::new(entries@.len(), |k: int| entries@[k].0@);
    let mut k: usize = 0;
    while k < entries.len()
        invariant
            k <= entries@.len(),
            names == Seq::new(entries@.len(), |k: int| entries@[k].0@),
            forall|i: int| 0 <= i < k ==> (#[trigger] entries@[i]).1,
            copies.deep_view() =~~= step_copies(names, data_dir@, scratch@).take(k as int),
        decreases entries@.len() - k,
    {
        let (name, is_file) = &entries[k];
        if !*is_file {
            return Err(Error::NonFileDataEntry { name: name.clone() });
        }
        copies.push((join_x(data_dir, name.as_str()), join_x(scratch, name.as_str())));
        proof {
            assert(copies.deep_view() =~~= step_copies(names, data_dir@, scratch@).take(k + 1));
        }
        k += 1;
    }
    proof {
        assert(copies.deep_view() =~~= step_copies(names, data_dir@, scratch@));
    }
    let inputs_contents = match test.input() {
        Some(s) => s.clone(),
        None => String::new(),
    };
    let inputs_path = join_x(scratch, "inputs.json");
    proof {
        reveal_strlit("inputs.json");
        assert("inputs.json"@ =~~= inputs_name());
        assert(inputs_contents@ =~~= inputs_of(test@));
    }
    let path = match test.path() {
        Some(p) => p.clone(),
        None => String::new(),  // unreachable: the caller hands over a materialized test
    };
    let command = substitute(template, path.as_str(), inputs_path.as_str());
    Ok(StepPlan { copies, inputs_path, inputs_contents, command })
}

/// A scratch directory modelled as a map from entry name to contents: its
/// state after one execution step over whatever it held before.  The reset
/// removes everything, then the data files are copied in and the input
/// document written.
pub open spec fn apply_step(
    prior: Map<Seq<char>, Seq<char>>,
    data: Map<Seq<char>, Seq<char>>,
    t: TestV,
) -> Map<Seq<char>, Seq<char>> {
    prior.restrict(Set::empty()).union_prefer_right(data).insert(inputs_name(), inputs_of(t))
}

/// Scratch isolation: what one test finds in its scratch directory depends
/// only on the shared data files and the test itself; nothing survives from
/// any earlier occupant of the directory.
pub proof fn lemma_scratch_isolation(
    prior1: Map<Seq<char>, Seq<char>>,
    prior2: Map<Seq<char>, Seq<char>>,
    data: Map<Seq<char>, Seq<char>>,
    t: TestV,
)
    ensures
        apply_step(prior1, data, t) == apply_step(prior2, data, t),
{
    assert(prior1.restrict(Set::empty()) =~~= prior2.restrict(Set::empty()));
    assert(apply_step(prior1, data, t) =~~= apply_step(prior2, data, t));
}

} // verus!
