//! Where the build places the final binary of a cargo target.
use vstd::prelude::*;
use vstd::string::*;

verus! {

/// Target triple of the Emscripten toolchain.
pub const EMSCRIPTEN_TRIPLET: &'static str = "wasm32-unknown-emscripten";

/// Target triple of the bare WebAssembly toolchain.
pub const UNKNOWN_TRIPLET: &'static str = "wasm32-unknown-unknown";

/// Name of the export that marks a module as having a constructor.
pub const CREATE_SYMBOL: &'static str = "deploy";

/// The toolchain that compiled the binary.
#[derive(Clone, Copy, Debug, PartialEq, Eq, Structural)]
pub enum SourceTarget {
    Emscripten,
    Unknown,
}

/// A compiled binary: the cargo target directory, the binary's name, the
/// name that the final file gets, and the toolchain.
pub struct SourceInput {
    target_dir: String,
    bin_name: String,
    final_name: String,
    target: SourceTarget,
}

impl SourceInput {
    /// The directory given to the build.
    pub closed spec fn spec_target_dir(&self) -> Seq<char> {
        self.target_dir@
    }

    /// The binary's name.
    pub closed spec fn spec_bin_name(&self) -> Seq<char> {
        self.bin_name@
    }

    /// The name of the final file, without its extension.
    pub closed spec fn spec_final_name(&self) -> Seq<char> {
        self.final_name@
    }

    /// The toolchain.
    pub closed spec fn spec_target(&self) -> SourceTarget {
        self.target
    }

    /// A binary of the Emscripten toolchain whose final file keeps its name.
    pub fn new(target_dir: &str, bin_name: &str) -> (r: SourceInput)
        ensures
            r.spec_target_dir() == target_dir@,
            r.spec_bin_name() == bin_name@,
            r.spec_final_name() == bin_name@,
            r.spec_target() == SourceTarget::Emscripten,
    {
        SourceInput {
            target_dir: String::from_str(target_dir),
            bin_name: String::from_str(bin_name),
            final_name: String::from_str(bin_name),
            target: SourceTarget::Emscripten,
        }
    }

    /// The same binary, built by the bare WebAssembly toolchain.
    pub fn unknown(self) -> (r: SourceInput)
        ensures
            r.spec_target_dir() == self.spec_target_dir(),
            r.spec_bin_name() == self.spec_bin_name(),
            r.spec_final_name() == self.spec_final_name(),
            r.spec_target() == SourceTarget::Unknown,
    {
        SourceInput { target: SourceTarget::Unknown, ..self }
    }

    /// The same binary, built by the Emscripten toolchain.
    pub fn emscripten(self) -> (r: SourceInput)
        ensures
            r.spec_target_dir() == self.spec_target_dir(),
            r.spec_bin_name() == self.spec_bin_name(),
            r.spec_final_name() == self.spec_final_name(),
            r.spec_target() == SourceTarget::Emscripten,
    {
        SourceInput { target: SourceTarget::Emscripten, ..self }
    }

    /// The same binary, whose final file is named `final_name`.
    pub fn with_final(self, final_name: &str) -> (r: SourceInput)
        ensures
            r.spec_target_dir() == self.spec_target_dir(),
            r.spec_bin_name() == self.spec_bin_name(),
            r.spec_final_name() == final_name@,
            r.spec_target() == self.spec_target(),
    {
        SourceInput { final_name: String::from_str(final_name), ..self }
    }

    pub fn target_dir(&self) -> (r: &str)
        ensures
            r@ == self.spec_target_dir(),
    {
        self.target_dir.as_str()
    }

    pub fn bin_name(&self) -> (r: &str)
        ensures
            r@ == self.spec_bin_name(),
    {
        self.bin_name.as_str()
    }

    pub fn final_name(&self) -> (r: &str)
        ensures
            r@ == self.spec_final_name(),
    {
        self.final_name.as_str()
    }

    pub fn target(&self) -> (r: SourceTarget)
        ensures
            r == self.spec_target(),
    {
        self.target
    }
}

/// `dir` extended by the relative or absolute path `file`, as a Unix path:
/// an absolute `file` replaces `dir`, and one separator stands between them.
pub open spec fn join_path(dir: Seq<char>, file: Seq<char>) -> Seq<char> {
    if file.len() > 0 && file[0] == '/' {
        file
    } else if dir.len() == 0 || dir.last() == '/' {
        dir + file
    } else {
        dir + seq!['/'] + file
    }
}

/// Relies on `std::path::PathBuf::push`, on a Unix target: an absolute path
/// replaces the current one, and a relative one is appended after a `/`
/// unless the current path is empty or already ends with one.
#[verifier::external_body]
fn push_path(dir: &str, file: &str) -> (r: String)
    ensures
        r@ == join_path(dir@, file@),
{
    let mut path = std::path::PathBuf::from(dir);
    path.push(file);
    path.to_string_lossy().to_string()
}

/// The path of the final `.wasm` file: the target directory joined with the
/// final name and the extension.
pub fn wasm_path(input: &SourceInput) -> (r: String)
    ensures
        r@ == join_path(input.spec_target_dir(), input.spec_final_name() + ".wasm"@),
{
    let file = String::from_str(input.final_name()).concat(".wasm");
    push_path(input.target_dir(), file.as_str())
}

/// The target triple of the toolchain `t`.
pub open spec fn triplet_of(t: SourceTarget) -> Seq<char> {
    match t {
        SourceTarget::Emscripten => EMSCRIPTEN_TRIPLET@,
        SourceTarget::Unknown => UNKNOWN_TRIPLET@,
    }
}

/// `s` with every `from` replaced by `to`.
pub open spec fn replace_char(s: Seq<char>, from: char, to: char) -> Seq<char> {
    s.map_values(|c: char| if c == from { to } else { c })
}

/// Relies on `str::replace` with a `char` pattern: every occurrence of
/// `from` is replaced by the one-character string `to`.
#[verifier::external_body]
fn replace_all(s: &str, from: char, to: char) -> (r: String)
    ensures
        r@ == replace_char(s@, from, to),
{
    s.replace(from, &to.to_string())
}

/// The path of the binary that cargo built: under the target directory, the
/// toolchain's triple, `release`, and the binary's name with `-` turned into
/// `_`, with the `.wasm` extension.
pub fn cargo_output_path(input: &SourceInput) -> (r: String)
    ensures
        r@ == join_path(
            join_path(join_path(input.spec_target_dir(), triplet_of(input.spec_target())), "release"@),
            replace_char(input.spec_bin_name(), '-', '_') + ".wasm"@,
        ),
{
    let triplet = match input.target() {
        SourceTarget::Emscripten => EMSCRIPTEN_TRIPLET,
        SourceTarget::Unknown => UNKNOWN_TRIPLET,
    };
    let dir = push_path(input.target_dir(), triplet);
    let dir = push_path(dir.as_str(), "release");
    let file = replace_all(input.bin_name(), '-', '_').concat(".wasm");
    push_path(dir.as_str(), file.as_str())
}

/// Whether one of the exports named `export_names` is the constructor.
pub fn has_ctor(export_names: &Vec<String>) -> (r: bool)
    ensures
        r == exists|i: int| 0 <= i < export_names@.len() && (#[trigger] export_names@[i])@ == CREATE_SYMBOL@,
{
    let create = String::from_str(CREATE_SYMBOL);
    let mut i: usize = 0;
    while i < export_names.len()
        invariant
            i <= export_names@.len(),
            create@ == CREATE_SYMBOL@,
            forall|j: int| 0 <= j < i ==> (#[trigger] export_names@[j])@ != CREATE_SYMBOL@,
        decreases export_names.len() - i,
    {
        if export_names[i] == create {
            return true;
        }
        i += 1;
    }
    false
}

} // verus!
