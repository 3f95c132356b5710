//! The arguments of the command line, as plain values.

use vstd::prelude::*;

verus! {

/// Commands about fonts.
#[derive(Debug)]
pub enum FontSubCommands {
    /// List all discovered fonts in system and custom font paths.
    List(ListFontsArgs),
    /// Measure fonts and generate a profile file for the compiler.
    Measure(MeasureFontsArgs),
}

/// Commands about packages.
#[derive(Debug)]
pub enum PackageSubCommands {
    /// List all discovered packages in data and cache paths.
    List(ListPackagesArgs),
    /// Link a package to the local data path.
    Link(LinkPackagesArgs),
    /// Unlink a package from the local data path.
    Unlink(LinkPackagesArgs),
    /// Generate documentation for a package.
    Doc(GenPackagesDocArgs),
}

/// Shared arguments for font related commands.
#[derive(Default, Debug, Clone)]
pub struct FontArgs {
    /// Additional directories to search for fonts, as paths.
    pub paths: Vec<String>,
}

/// The arguments of one compilation.
#[derive(Default, Debug, Clone)]
pub struct CompileOnceArgs {
    /// Shared arguments for font related commands.
    pub font: FontArgs,
    /// Path to the workspace.
    pub workspace: String,
    /// Entry file.
    pub entry: String,
    /// Output directory; empty for the directory of the entry file.
    pub output: String,
}

/// The arguments of the compile command.
#[derive(Default, Debug, Clone)]
pub struct CompileArgs {
    /// The arguments of one compilation.
    pub compile: CompileOnceArgs,
    /// Watch mode.
    pub watch: bool,
    /// Generate a dynamic layout representation.
    pub dynamic_layout: bool,
    /// Output formats: `ast`, `pdf`, `svg`, `svg_html`.
    pub format: Vec<String>,
    /// What to trace, if anything.
    pub trace: Option<String>,
}

/// The arguments of the query command.
#[derive(Debug, Clone)]
pub struct QueryArgs {
    /// The arguments of the compilation before the query.
    pub compile: CompileArgs,
    /// Which elements to retrieve.
    pub selector: String,
    /// The one field to extract from all retrieved elements.
    pub field: Option<String>,
    /// Expect and retrieve exactly one element.
    pub one: bool,
}

/// The arguments of the interactive query command.
#[derive(Debug, Clone)]
pub struct QueryReplArgs {
    /// The arguments of the compilation before the queries.
    pub compile: CompileOnceArgs,
}

/// The arguments of the command that lists fonts.
#[derive(Debug, Clone)]
pub struct ListFontsArgs {
    /// Shared arguments for font related commands.
    pub font: FontArgs,
    /// Also list the style variants of each font family.
    pub variants: bool,
}

/// The arguments of the command that measures fonts.
#[derive(Debug, Clone)]
pub struct MeasureFontsArgs {
    /// Shared arguments for font related commands.
    pub font: FontArgs,
    /// Path to the profile file to write.
    pub output: String,
    /// Exclude system font paths.
    pub no_system_fonts: bool,
}

/// What the environment command can show.
#[derive(Debug, Clone)]
pub enum EnvKey {
    Features,
}

/// The arguments of the environment command.
#[derive(Debug, Clone)]
pub struct EnvArgs {
    /// What to show.
    pub key: EnvKey,
}

/// The arguments of the command that lists packages.
#[derive(Debug, Clone)]
pub struct ListPackagesArgs {
    /// Also list other information of each package.
    pub long: bool,
}

/// The arguments of the commands that link and unlink a package.
#[derive(Debug, Clone)]
pub struct LinkPackagesArgs {
    /// Path to the package manifest file.
    pub manifest: String,
}

/// The arguments of the command that generates the documentation of a package.
#[derive(Debug, Clone)]
pub struct GenPackagesDocArgs {
    /// Path to the package manifest file.
    pub manifest: String,
    /// Path to the output directory.
    pub output: String,
    /// Generate a dynamic layout representation.
    pub dynamic_layout: bool,
}

} // verus!
