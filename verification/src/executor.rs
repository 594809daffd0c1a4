//! Planning of tool invocations over input files.
//!
//! A tool that transforms a file in place writes to a sibling temporary path
//! and, only on a successful run, renames the temporary path over the
//! original. This module plans those invocations; performing them (spawning
//! the subprocess, renaming) is the caller's side of the boundary.

use vstd::prelude::*;

verus! {

use crate::text::{ends_with, suffix_of};

/// One subprocess invocation: the program to spawn and its arguments, in
/// order.
pub struct Invocation {
    pub program: String,
    pub args: Vec<String>,
}

/// An in-place transform of one input file: the command writes the
/// transformed content to `tmp_output`, and only a successful run may move
/// it over `input`.
pub struct FileTransform {
    pub input: String,
    pub tmp_output: String,
    pub command: Invocation,
}

/// A pending atomic rename of `from` over `to`.
pub struct Rename {
    pub from: String,
    pub to: String,
}

/// What a requested tool run amounts to once the tool is resolved (or found
/// unobtainable).
pub enum RunPlan {
    /// The tool is absent and no downloading was requested: skip the run.
    SkipCannotInstall,
    /// No precompiled artifact exists for this host: skip the run.
    SkipPlatformNotSupported,
    /// The tool was resolved; one transform per matching input file.
    Transforms(Vec<FileTransform>),
}

/// The temporary sibling path of an input file: the `.wasm` suffix replaced
/// by a distinct marker suffix.
pub open spec fn temp_output_spec(input: Seq<char>) -> Seq<char> {
    input.subrange(0, input.len() - ".wasm"@.len()) + ".wasm-opt.wasm"@
}

/// Builds the temporary sibling path of `input`.
pub fn temp_output_name(input: &str) -> (r: String)
    requires
        suffix_of(input@, ".wasm"@),
    ensures
        r@ == temp_output_spec(input@),
{
    proof {
        reveal_strlit(".wasm");
    }
    let n: usize = input.unicode_len();
    let stem = input.substring_char(0, n - 5);
    let mut r = stem.to_owned();
    r.append(".wasm-opt.wasm");
    r
}

/// Law: the temporary output path never collides with the input path, so a
/// failing run can never have touched the original file.
pub proof fn lemma_temp_output_distinct(input: Seq<char>)
    requires
        suffix_of(input, ".wasm"@),
    ensures
        temp_output_spec(input) != input,
{
    reveal_strlit(".wasm");
    reveal_strlit(".wasm-opt.wasm");
    assert(temp_output_spec(input).len() == input.len() + 9);
}

/// The path names a file whose extension is `wasm`: it ends with the
/// `.wasm` suffix and has a non-empty file stem in front of it (a bare
/// `.wasm` file name is a hidden file without an extension, not a match).
pub open spec fn wasm_file(s: Seq<char>) -> bool {
    &&& suffix_of(s, ".wasm"@)
    &&& s.len() > ".wasm"@.len()
    &&& s[s.len() - ".wasm"@.len() - 1] != '/'
    &&& s[s.len() - ".wasm"@.len() - 1] != '\\'
}

/// Decides whether the path names a file with the `wasm` extension.
pub fn is_wasm_file(s: &str) -> (r: bool)
    ensures
        r == wasm_file(s@),
{
    proof {
        reveal_strlit(".wasm");
    }
    if !ends_with(s, ".wasm") {
        return false;
    }
    let n: usize = s.unicode_len();
    if n == 5 {
        return false;
    }
    let before = s.get_char(n - 6);
    before != '/' && before != '\\'
}

/// The input files a run processes: exactly those with the `wasm` extension,
/// in their original order.
pub open spec fn wasm_inputs(files: Seq<String>) -> Seq<String> {
    files.filter(|f: String| wasm_file(f@))
}

/// `c` is the invocation of `exec` that transforms `input`: the input path,
/// then `-o` and the temporary output path, then the caller's extra
/// arguments.
pub open spec fn command_ok(c: Invocation, exec: Seq<char>, input: Seq<char>, extra: Seq<String>) -> bool {
    &&& c.program@ == exec
    &&& c.args@.len() == 3 + extra.len()
    &&& c.args@[0]@ == input
    &&& c.args@[1]@ == "-o"@
    &&& c.args@[2]@ == temp_output_spec(input)
    &&& forall|j: int| 0 <= j < extra.len() ==> c.args@[3 + j]@ == #[trigger] extra[j]@
}

/// `t` is the planned transform of `input` by `exec`.
pub open spec fn transform_ok(t: FileTransform, exec: Seq<char>, input: Seq<char>, extra: Seq<String>) -> bool {
    &&& t.input@ == input
    &&& t.tmp_output@ == temp_output_spec(input)
    &&& command_ok(t.command, exec, input, extra)
}

/// `ts` is the full plan for `files`: one transform per `wasm` file, in
/// order, and nothing for any other file.
pub open spec fn plan_ok(ts: Seq<FileTransform>, exec: Seq<char>, files: Seq<String>, extra: Seq<String>) -> bool {
    &&& ts.len() == wasm_inputs(files).len()
    &&& forall|k: int|
        0 <= k < ts.len() ==> transform_ok(#[trigger] ts[k], exec, wasm_inputs(files)[k]@, extra)
}

/// Builds the transform of one input file.
fn make_transform(exec: &String, input: &String, extra: &Vec<String>) -> (t: FileTransform)
    requires
        wasm_file(input@),
    ensures
        transform_ok(t, exec@, input@, extra@),
{
    let tmp = temp_output_name(input.as_str());
    let mut args: Vec<String> = Vec::new();
    args.push(input.clone());
    args.push("-o".to_owned());
    args.push(tmp.clone());
    let mut j: usize = 0;
    while j < extra.len()
        invariant
            j <= extra.len(),
            args@.len() == 3 + j,
            args@[0]@ == input@,
            args@[1]@ == "-o"@,
            args@[2]@ == tmp@,
            forall|j2: int| 0 <= j2 < j ==> args@[3 + j2]@ == #[trigger] extra@[j2]@,
        decreases extra.len() - j,
    {
        args.push(extra[j].clone());
        j += 1;
    }
    FileTransform {
        input: input.clone(),
        tmp_output: tmp,
        command: Invocation { program: exec.clone(), args },
    }
}

/// Plans one transform per `wasm` file among `files`, in order; files with
/// any other extension are left out of the plan entirely.
pub fn plan_transforms(exec: &String, files: &Vec<String>, extra: &Vec<String>) -> (r: Vec<
    FileTransform,
>)
    ensures
        plan_ok(r@, exec@, files@, extra@),
{
    broadcast use vstd::seq_lib::group_filter_ensures;

    let mut r: Vec<FileTransform> = Vec::new();
    let mut i: usize = 0;
    while i < files.len()
        invariant
            i <= files.len(),
            plan_ok(r@, exec@, files@.subrange(0, i as int), extra@),
        decreases files.len() - i,
    {
        proof {
            files@.subrange(0, i as int).lemma_filter_push(
                files@[i as int],
                |f: String| wasm_file(f@),
            );
            assert(files@.subrange(0, i as int + 1) =~= files@.subrange(0, i as int).push(
                files@[i as int],
            ));
        }
        let f = &files[i];
        if is_wasm_file(f.as_str()) {
            let t = make_transform(exec, f, extra);
            r.push(t);
        }
        i += 1;
    }
    proof {
        assert(files@.subrange(0, files@.len() as int) =~= files@);
    }
    r
}

/// Decides what to do with the temporary output once the subprocess has
/// finished: only a successful run moves it over the original, so a failing
/// run leaves the original path untouched.
pub fn post_run_action(transform: &FileTransform, success: bool) -> (r: Option<Rename>)
    ensures
        success ==> (r matches Some(a) && a.from == transform.tmp_output && a.to
            == transform.input),
        !success ==> r is None,
{
    if success {
        Some(Rename { from: transform.tmp_output.clone(), to: transform.input.clone() })
    } else {
        None
    }
}

/// Law: a plan processes exactly the matching files. Every planned input has
/// the `wasm` extension, and every file of `files` with that extension is
/// among the planned inputs.
pub proof fn lemma_plan_exact(files: Seq<String>)
    ensures
        forall|k: int|
            0 <= k < wasm_inputs(files).len() ==> wasm_file(#[trigger] wasm_inputs(files)[k]@),
        forall|i: int|
            0 <= i < files.len() && wasm_file(#[trigger] files[i]@) ==> wasm_inputs(
                files,
            ).contains(files[i]),
{
    broadcast use vstd::seq_lib::group_filter_ensures;

}

} // verus!
