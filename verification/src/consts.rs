//! The library's built-in defaults: where builds happen, where artifacts
//! go, how output files are prefixed, and which toolchain is fetched when
//! nothing else is configured.

use vstd::prelude::*;

verus! {

/// Default build directory.
pub const TSDL_BUILD_DIR: &'static str = "/tmp/tsdl";

/// Default configuration file name.
pub const TSDL_CONFIG_FILE: &'static str = "parsers.toml";

/// Default fresh-build flag.
pub const TSDL_FRESH: bool = false;

/// Base URL a language's repository is derived from when no override is
/// given: the language name is appended to this.
pub const TSDL_FROM: &'static str = "https://github.com/tree-sitter/tree-sitter-";

/// Default output directory.
pub const TSDL_OUT_DIR: &'static str = "parsers";

/// Default artifact name prefix.
pub const TSDL_PREFIX: &'static str = "libtree-sitter-";

/// Default ref for a language with no configured version.
pub const TSDL_REF: &'static str = "HEAD";

/// Default show-config flag.
pub const TSDL_SHOW_CONFIG: bool = false;

/// Default platform identifier of the toolchain binary.
pub const TREE_SITTER_PLATFORM: &'static str = "linux-x64";

/// Default toolchain repository.
pub const TREE_SITTER_REPO: &'static str = "https://github.com/tree-sitter/tree-sitter";

/// Default toolchain version.
pub const TREE_SITTER_VERSION: &'static str = "0.22.6";

} // verus!
