//! The paths that a compiler's command line names: where the binary module
//! interface of a module goes, and where its source is read from.
use vstd::prelude::*;
use vstd::string::{StrSliceExecFns, StringExecFns};

use crate::config_file::compiler::CppCompiler;
use crate::config_file::modules::{InterfaceModel, ModuleInterface};

verus! {

/// `n` is the place of the first `.` of `filename`, or the length of
/// `filename` where it holds no `.`.
pub open spec fn is_stem_len(filename: Seq<char>, n: int) -> bool {
    &&& 0 <= n <= filename.len()
    &&& forall|i: int| 0 <= i < n ==> filename[i] != '.'
    &&& n < filename.len() ==> filename[n] == '.'
}

/// What stands before the first `.` of `filename`: all of it where it holds
/// no `.`, nothing where it starts with one.
pub open spec fn file_stem(filename: Seq<char>) -> Seq<char> {
    filename.take(choose|n: int| is_stem_len(filename, n))
}

/// A file name has one stem: whichever place satisfies [`is_stem_len`] cuts
/// it off.
pub proof fn lemma_file_stem(filename: Seq<char>, n: int)
    requires
        is_stem_len(filename, n),
    ensures
        file_stem(filename) == filename.take(n),
{
    let m: int = choose|m: int| is_stem_len(filename, m);
    if m < n {
        assert(filename[m] == '.');
    } else if n < m {
        assert(filename[n] == '.');
    }
}

/// A place that satisfies [`is_stem_len`], found from `from` onwards.
proof fn lemma_stem_len_from(filename: Seq<char>, from: int) -> (n: int)
    requires
        0 <= from <= filename.len(),
        forall|i: int| 0 <= i < from ==> filename[i] != '.',
    ensures
        is_stem_len(filename, n),
    decreases filename.len() - from,
{
    if from < filename.len() && filename[from] != '.' {
        lemma_stem_len_from(filename, from + 1)
    } else {
        from
    }
}

/// Every file name has a stem: it opens the name, holds no `.`, and what
/// follows it in the name, if anything does, starts with a `.`.
pub proof fn lemma_file_stem_opens_filename(filename: Seq<char>)
    ensures
        is_stem_len(filename, file_stem(filename).len() as int),
        file_stem(filename).is_prefix_of(filename),
        !file_stem(filename).contains('.'),
{
    let n: int = lemma_stem_len_from(filename, 0);
    lemma_file_stem(filename, n);
}

/// The name under which a module's binary interface is stored: the module's
/// name where the project gives one, else the stem of the interface file.
pub open spec fn artifact_stem(interface: InterfaceModel) -> Seq<char> {
    match interface.module_name {
        Some(name) => name,
        None => file_stem(interface.filename),
    }
}

/// The path of the binary module interface that `compiler` writes for
/// `interface` below `out_dir`. The parts are joined as they stand, with
/// forward slashes on every host.
pub open spec fn prebuild_miu(
    compiler: CppCompiler,
    out_dir: Seq<char>,
    interface: InterfaceModel,
) -> Seq<char> {
    out_dir + "/"@ + compiler.name() + "/modules/interfaces/"@ + artifact_stem(interface) + "."@
        + compiler.artifact_extension()
}

/// The path under which the compiler reads `interface`: the file name, below
/// `base_path` where there is one.
pub open spec fn input_file(interface: InterfaceModel, base_path: Option<Seq<char>>) -> Seq<char> {
    match base_path {
        Some(base) => base + "/"@ + interface.filename,
        None => interface.filename,
    }
}

/// What an optional string slice holds.
pub open spec fn optional_text(text: Option<&str>) -> Option<Seq<char>> {
    match text {
        Some(text) => Some(text@),
        None => None,
    }
}

/// Cuts `filename` off before its first `.`.
pub fn filename_stem<'a>(filename: &'a str) -> (stem: &'a str)
    ensures
        stem@ == file_stem(filename@),
{
    let len: usize = filename.unicode_len();
    let mut end: usize = 0;
    while end < len && filename.get_char(end) != '.'
        invariant
            end <= len,
            len == filename@.len(),
            forall|i: int| 0 <= i < end ==> filename@[i] != '.',
        decreases len - end,
    {
        end += 1;
    }
    proof {
        lemma_file_stem(filename@, end as int);
    }
    filename.substring_char(0, end)
}

/// Formats the string that represents the input module interface file
/// that will be passed to the compiler.
pub fn miu_input_file(interface: &ModuleInterface, base_path: Option<&str>) -> (path: String)
    ensures
        path@ == input_file(interface@, optional_text(base_path)),
{
    match base_path {
        Some(base) => String::from_str(base).concat("/").concat(interface.filename),
        None => String::from_str(interface.filename),
    }
}

/// Formats the path of the binary module interface that precompiling
/// `interface` produces.
pub fn generate_prebuild_miu(
    compiler: &CppCompiler,
    out_dir: &str,
    interface: &ModuleInterface,
) -> (path: String)
    ensures
        path@ == prebuild_miu(*compiler, out_dir@, interface@),
{
    let stem = match interface.module_name {
        Some(module_name) => module_name,
        None => filename_stem(interface.filename),
    };
    String::from_str(out_dir).concat("/").concat(compiler.as_str()).concat(
        "/modules/interfaces/",
    ).concat(stem).concat(".").concat(compiler.get_artifact_extension())
}

} // verus!
