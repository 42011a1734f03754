//! What a request can choose: how the source is read and how the output is
//! printed.

use vstd::prelude::*;

verus! {

/// An edition of the ECMAScript language.
#[derive(Debug, Clone, Copy, PartialEq, Eq, Structural)]
pub enum Edition {
    Es3,
    Es5,
    Es2015,
    Es2016,
    Es2017,
    Es2018,
    Es2019,
    Es2020,
    Es2021,
    Es2022,
    Es2023,
    Es2024,
    EsNext,
}

/// How the source text is read. The dialect is always plain TypeScript,
/// without JSX and without decorators, and early errors are always reported.
#[derive(Debug, Clone, Copy, PartialEq, Eq, Structural)]
pub struct ParserOptions {
    /// The edition whose syntax the lexer accepts.
    pub target: Edition,
}

/// How the final tree is printed.
#[derive(Debug, Clone, Copy, PartialEq, Eq, Structural)]
pub struct EmitterConfig {
    /// The edition that the output is written for.
    pub target: Edition,
    /// Escape every character outside ASCII.
    pub ascii_only: bool,
    /// Leave out the white space that the syntax does not need.
    pub minify: bool,
    /// Leave out the terminator of the last statement. This shows in minified
    /// output only: elsewhere a line break follows the terminator and keeps it.
    pub omit_last_semi: bool,
}

impl ParserOptions {
    /// TypeScript in the syntax of ES2022.
    pub open spec fn standard() -> ParserOptions {
        ParserOptions { target: Edition::Es2022 }
    }
}

impl Default for ParserOptions {
    /// TypeScript in the syntax of ES2022.
    fn default() -> (options: ParserOptions)
        ensures
            options == ParserOptions::standard(),
    {
        ParserOptions { target: Edition::Es2022 }
    }
}

impl EmitterConfig {
    /// Readable ES2022: characters are kept as they are, white space is kept, and
    /// the last statement keeps its terminator.
    pub open spec fn standard() -> EmitterConfig {
        EmitterConfig {
            target: Edition::Es2022,
            ascii_only: false,
            minify: false,
            omit_last_semi: false,
        }
    }
}

impl Default for EmitterConfig {
    /// Readable ES2022: characters are kept as they are, white space is kept, and
    /// the last statement keeps its terminator.
    fn default() -> (config: EmitterConfig)
        ensures
            config == EmitterConfig::standard(),
    {
        EmitterConfig {
            target: Edition::Es2022,
            ascii_only: false,
            minify: false,
            omit_last_semi: false,
        }
    }
}

} // verus!
