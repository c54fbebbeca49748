//! The fixed names and the fixed default text the procedure writes.
//!
//! The state directory and the configuration file live at fixed relative
//! paths, and the configuration file is seeded verbatim from one fixed
//! template whose internal schema this tool never interprets.  The template
//! carries three sections: global translation settings, model credentials
//! (left blank), and one named feature group with a working subdirectory and
//! a shell command per build/test/clean action.

use vstd::prelude::*;

verus! {

/// Name of the hidden state directory, relative to the working directory.
pub open spec fn spec_state_dir_name() -> Seq<char> {
    ".c2rust"@
}

/// Name of the hidden state directory, relative to the working directory.
pub fn state_dir_name() -> (r: &'static str)
    ensures
        r@ == spec_state_dir_name(),
{
    ".c2rust"
}

/// Name of the configuration file, relative to the state directory.
pub open spec fn spec_config_file_name() -> Seq<char> {
    "config.toml"@
}

/// Name of the configuration file, relative to the state directory.
pub fn config_file_name() -> (r: &'static str)
    ensures
        r@ == spec_config_file_name(),
{
    "config.toml"
}

/// The default configuration template, written verbatim when the file is
/// absent.
pub open spec fn spec_default_config() -> Seq<char> {
    "[global]\nsource = \"c\"\ntarget = \"rust\"\n\n[model]\nprovider = \"\"\napi_key = \"\"\n\n[features.default]\ndir = \".\"\nbuild = \"cargo build\"\ntest = \"cargo test\"\nclean = \"cargo clean\"\n"@
}

/// The default configuration template, written verbatim when the file is
/// absent.
pub fn default_config() -> (r: &'static str)
    ensures
        r@ == spec_default_config(),
{
    "[global]\nsource = \"c\"\ntarget = \"rust\"\n\n[model]\nprovider = \"\"\napi_key = \"\"\n\n[features.default]\ndir = \".\"\nbuild = \"cargo build\"\ntest = \"cargo test\"\nclean = \"cargo clean\"\n"
}

/// `sub` occurs contiguously somewhere in `s`.
pub open spec fn spec_contains(s: Seq<char>, sub: Seq<char>) -> bool {
    exists|i: int| 0 <= i && i + sub.len() <= s.len() && #[trigger] s.subrange(i, i + sub.len())
        == sub
}

/// The seeded template is non-empty and names both a global section and a
/// model section.
pub proof fn lemma_default_config_sections()
    ensures
        spec_default_config().len() > 0,
        spec_contains(spec_default_config(), "[global]"@),
        spec_contains(spec_default_config(), "[model]"@),
{
    reveal_strlit(
        "[global]\nsource = \"c\"\ntarget = \"rust\"\n\n[model]\nprovider = \"\"\napi_key = \"\"\n\n[features.default]\ndir = \".\"\nbuild = \"cargo build\"\ntest = \"cargo test\"\nclean = \"cargo clean\"\n",
    );
    reveal_strlit("[global]");
    reveal_strlit("[model]");
    assert(spec_default_config().subrange(0, 0 + "[global]"@.len() as int) =~= "[global]"@);
    assert(spec_default_config().subrange(39, 39 + "[model]"@.len() as int) =~= "[model]"@);
}

} // verus!
