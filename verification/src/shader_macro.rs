//! The input grammar of the `shaders!` macro.
//!
//! The macro is written `shaders!("base/path", [debug,] [none|default|high][,] "a.slang", "b.slang", ...)`:
//! a string literal naming the directory the shader files are searched in, a
//! comma, optionally the keyword `debug` and a comma (full debug
//! information), optionally an optimization level keyword (`default` when
//! absent) and optionally a comma, then the shader files as string literals
//! separated by commas, with an optional trailing comma.

use vstd::prelude::*;

verus! {

/// One token of the macro's input, as the grammar sees it.
#[derive(Debug, Clone, PartialEq, Eq)]
pub enum MacroToken {
    /// A string literal, with its value.
    Str(String),
    /// An identifier or keyword.
    Ident(String),
    /// A `,`.
    Comma,
    /// Any other token.
    Other,
}

/// How much the shader compiler optimizes.
#[derive(Debug, Clone, Copy, PartialEq, Eq)]
pub enum OptimizationLevel {
    Disabled,
    Default,
    High,
    Maximal,
}

/// How much debug information the shader compiler emits.
#[derive(Debug, Clone, Copy, PartialEq, Eq)]
pub enum DebugInfoLevel {
    Disabled,
    Minimal,
    Standard,
    Maximal,
}

/// An optimization level as written in the macro input.
#[derive(Debug, Clone, Copy, PartialEq, Eq)]
pub struct OptLvl(pub OptimizationLevel);

/// The parsed macro input.
#[derive(Debug, Clone, PartialEq, Eq)]
pub struct MacroInput {
    pub opt_level: OptimizationLevel,
    pub debug: DebugInfoLevel,
    pub base_path: String,
    pub files: Vec<String>,
}

/// The parsed macro input with its strings as character sequences.
pub struct MacroInputSpec {
    pub opt_level: OptimizationLevel,
    pub debug: DebugInfoLevel,
    pub base_path: Seq<char>,
    pub files: Seq<Seq<char>>,
}

impl View for MacroInput {
    type V = MacroInputSpec;

    open spec fn view(&self) -> MacroInputSpec {
        MacroInputSpec {
            opt_level: self.opt_level,
            debug: self.debug,
            base_path: self.base_path@,
            files: self.files@.map_values(|s: String| s@),
        }
    }
}

/// Why the macro input does not parse, with the position of the token that
/// does not fit (the number of tokens when the input ended too early).
#[derive(Debug, Clone, Copy, PartialEq, Eq)]
pub enum MacroParseError {
    ExpectedStringLiteral(usize),
    ExpectedComma(usize),
}

/// Token `pos` exists and is the identifier `word`.
pub open spec fn is_ident_at(tokens: Seq<MacroToken>, pos: int, word: Seq<char>) -> bool {
    &&& 0 <= pos < tokens.len()
    &&& tokens[pos] matches MacroToken::Ident(s) && s@ == word
}

/// Token `pos` exists and is a comma.
pub open spec fn is_comma_at(tokens: Seq<MacroToken>, pos: int) -> bool {
    0 <= pos < tokens.len() && tokens[pos] is Comma
}

/// The optimization level written at `pos` (`default` when no level keyword
/// stands there) and the position after it.
pub open spec fn opt_level_spec(tokens: Seq<MacroToken>, pos: int) -> (OptimizationLevel, int) {
    if is_ident_at(tokens, pos, "none"@) {
        (OptimizationLevel::Disabled, pos + 1)
    } else if is_ident_at(tokens, pos, "default"@) {
        (OptimizationLevel::Default, pos + 1)
    } else if is_ident_at(tokens, pos, "high"@) {
        (OptimizationLevel::High, pos + 1)
    } else {
        (OptimizationLevel::Default, pos)
    }
}

/// The string literals from `pos` to the end, separated by commas, with an
/// optional trailing comma.
pub open spec fn files_spec(tokens: Seq<MacroToken>, pos: int) -> Result<Seq<Seq<char>>, MacroParseError>
    decreases tokens.len() - pos,
{
    if pos >= tokens.len() || pos < 0 {
        Ok(Seq::empty())
    } else if let MacroToken::Str(s) = tokens[pos] {
        if pos + 1 >= tokens.len() {
            Ok(seq![s@])
        } else if is_comma_at(tokens, pos + 1) {
            match files_spec(tokens, pos + 2) {
                Ok(rest) => Ok(seq![s@] + rest),
                Err(e) => Err(e),
            }
        } else {
            Err(MacroParseError::ExpectedComma((pos + 1) as usize))
        }
    } else {
        Err(MacroParseError::ExpectedStringLiteral(pos as usize))
    }
}

/// The macro input that `tokens` spell, or why they do not.
pub open spec fn macro_input_spec(tokens: Seq<MacroToken>) -> Result<MacroInputSpec, MacroParseError> {
    if !(tokens.len() > 0 && tokens[0] is Str) {
        Err(MacroParseError::ExpectedStringLiteral(0))
    } else if !is_comma_at(tokens, 1) {
        Err(MacroParseError::ExpectedComma(1))
    } else if is_ident_at(tokens, 2, "debug"@) && !is_comma_at(tokens, 3) {
        Err(MacroParseError::ExpectedComma(3))
    } else {
        let debug = is_ident_at(tokens, 2, "debug"@);
        let after_debug = if debug { 4 } else { 2int };
        let (opt_level, after_opt) = opt_level_spec(tokens, after_debug);
        let files_start = if is_comma_at(tokens, after_opt) { after_opt + 1 } else { after_opt };
        match files_spec(tokens, files_start) {
            Ok(files) => Ok(
                MacroInputSpec {
                    opt_level,
                    debug: if debug { DebugInfoLevel::Maximal } else { DebugInfoLevel::Disabled },
                    base_path: tokens[0]->Str_0@,
                    files,
                },
            ),
            Err(e) => Err(e),
        }
    }
}

/// `tokens` from `pos` on are `n` string literals separated by commas, with
/// or without a trailing comma.
pub open spec fn is_file_list(tokens: Seq<MacroToken>, pos: int, n: int) -> bool {
    &&& 0 <= pos
    &&& 0 <= n
    &&& (tokens.len() == pos + 2 * n - 1 || tokens.len() == pos + 2 * n || (n == 0 && tokens.len() == pos))
    &&& forall|k: int| 0 <= k < n ==> (#[trigger] tokens[pos + 2 * k]) is Str
    &&& forall|k: int| 0 <= k < n && pos + 2 * k + 1 < tokens.len() ==> (#[trigger] tokens[pos + 2 * k + 1]) is Comma
}

/// Every comma-separated list of string literals (with or without a trailing
/// comma) parses, into exactly the values of those literals, in order.
pub proof fn lemma_file_list_parses(tokens: Seq<MacroToken>, pos: int, n: int)
    requires
        is_file_list(tokens, pos, n),
    ensures
        files_spec(tokens, pos) matches Ok(files) && files.len() == n && forall|k: int|
            0 <= k < n ==> files[k] == (#[trigger] tokens[pos + 2 * k])->Str_0@,
    decreases n,
{
    if n > 0 {
        assert(tokens[pos + 2 * 0] is Str);
        if n > 1 {
            assert(tokens[pos + 2 * 0 + 1] is Comma);
            assert forall|k: int| 0 <= k < n - 1 implies (#[trigger] tokens[(pos + 2) + 2 * k]) is Str by {
                assert(tokens[pos + 2 * (k + 1)] is Str);
            }
            assert forall|k: int| 0 <= k < n - 1 && (pos + 2) + 2 * k + 1 < tokens.len() implies (#[trigger] tokens[(pos + 2) + 2 * k + 1]) is Comma by {
                assert(tokens[pos + 2 * (k + 1) + 1] is Comma);
            }
            lemma_file_list_parses(tokens, pos + 2, n - 1);
            let rest = files_spec(tokens, pos + 2)->Ok_0;
            let files = files_spec(tokens, pos)->Ok_0;
            assert forall|k: int| 0 <= k < n implies files[k] == (#[trigger] tokens[pos + 2 * k])->Str_0@ by {
                if k > 0 {
                    assert(rest[k - 1] == tokens[(pos + 2) + 2 * (k - 1)]->Str_0@);
                }
            }
        } else if pos + 1 < tokens.len() {
            assert(tokens[pos + 2 * 0 + 1] is Comma);
            assert(files_spec(tokens, pos + 2) == Ok::<Seq<Seq<char>>, MacroParseError>(Seq::empty()));
        }
    }
}

/// After `n` string literals each followed by a comma, a token that is not
/// a string literal is reported as a missing string literal at its
/// position, and a string literal followed by anything but a comma is
/// reported as a missing comma at the position after it.
pub proof fn lemma_file_list_errors(tokens: Seq<MacroToken>, pos: int, n: int)
    requires
        0 <= pos,
        0 <= n,
        pos + 2 * n < tokens.len(),
        tokens.len() <= usize::MAX,
        forall|k: int| 0 <= k < n ==> (#[trigger] tokens[pos + 2 * k]) is Str,
        forall|k: int| 0 <= k < n ==> (#[trigger] tokens[pos + 2 * k + 1]) is Comma,
    ensures
        !(tokens[pos + 2 * n] is Str) ==> files_spec(tokens, pos) == Err::<Seq<Seq<char>>, MacroParseError>(
            MacroParseError::ExpectedStringLiteral((pos + 2 * n) as usize),
        ),
        tokens[pos + 2 * n] is Str && pos + 2 * n + 1 < tokens.len() && !(tokens[pos + 2 * n + 1] is Comma)
            ==> files_spec(tokens, pos) == Err::<Seq<Seq<char>>, MacroParseError>(
            MacroParseError::ExpectedComma((pos + 2 * n + 1) as usize),
        ),
    decreases n,
{
    if n > 0 {
        assert(tokens[pos + 2 * 0] is Str);
        assert(tokens[pos + 2 * 0 + 1] is Comma);
        assert forall|k: int| 0 <= k < n - 1 implies (#[trigger] tokens[(pos + 2) + 2 * k]) is Str by {
            assert(tokens[pos + 2 * (k + 1)] is Str);
        }
        assert forall|k: int| 0 <= k < n - 1 implies (#[trigger] tokens[(pos + 2) + 2 * k + 1]) is Comma by {
            assert(tokens[pos + 2 * (k + 1) + 1] is Comma);
        }
        lemma_file_list_errors(tokens, pos + 2, n - 1);
        assert((pos + 2) + 2 * (n - 1) == pos + 2 * n);
    }
}

/// The optimization level keyword at `pos`: `none`, `default` and `high`
/// select their level and are consumed; any other token, or none, leaves
/// the position where it is and selects the default level.
pub proof fn lemma_opt_level_keywords(tokens: Seq<MacroToken>, pos: int)
    requires
        0 <= pos,
    ensures
        (0 <= pos < tokens.len() && tokens[pos] is Ident && tokens[pos]->Ident_0@ == "none"@)
            ==> opt_level_spec(tokens, pos) == (OptimizationLevel::Disabled, pos + 1),
        (0 <= pos < tokens.len() && tokens[pos] is Ident && tokens[pos]->Ident_0@ == "default"@)
            ==> opt_level_spec(tokens, pos) == (OptimizationLevel::Default, pos + 1),
        (0 <= pos < tokens.len() && tokens[pos] is Ident && tokens[pos]->Ident_0@ == "high"@)
            ==> opt_level_spec(tokens, pos) == (OptimizationLevel::High, pos + 1),
        !(0 <= pos < tokens.len() && tokens[pos] is Ident && (tokens[pos]->Ident_0@
            == "none"@ || tokens[pos]->Ident_0@ == "default"@ || tokens[pos]->Ident_0@ == "high"@)) ==> opt_level_spec(tokens, pos) == (OptimizationLevel::Default, pos),
{
    reveal_strlit("none");
    reveal_strlit("default");
    reveal_strlit("high");
    assert("none"@.len() == 4 && "default"@.len() == 7 && "high"@.len() == 4);
    assert("none"@[0] == 'n' && "high"@[0] == 'h');
    assert("none"@ != "high"@);
}

/// The start of the macro input is checked first: no leading string
/// literal is reported at position 0, no comma after it at position 1, and
/// a `debug` keyword not followed by a comma at position 3.
pub proof fn lemma_macro_input_prefix_errors(tokens: Seq<MacroToken>)
    ensures
        !(tokens.len() > 0 && tokens[0] is Str) ==> macro_input_spec(tokens) == Err::<MacroInputSpec, MacroParseError>(
            MacroParseError::ExpectedStringLiteral(0),
        ),
        (tokens.len() > 0 && tokens[0] is Str && !(tokens.len() > 1 && tokens[1] is Comma))
            ==> macro_input_spec(tokens) == Err::<MacroInputSpec, MacroParseError>(MacroParseError::ExpectedComma(1)),
        (tokens.len() > 2 && tokens[0] is Str && tokens[1] is Comma && tokens[2] is Ident
            && tokens[2]->Ident_0@ == "debug"@ && !(tokens.len() > 3 && tokens[3] is Comma))
            ==> macro_input_spec(tokens) == Err::<MacroInputSpec, MacroParseError>(MacroParseError::ExpectedComma(3)),
{
}

/// The keyword that selects an optimization level in the macro input.
pub open spec fn level_keyword(level: OptimizationLevel) -> Seq<char> {
    match level {
        OptimizationLevel::Disabled => "none"@,
        OptimizationLevel::Default => "default"@,
        _ => "high"@,
    }
}

/// Where the files start in a full-form macro input.
pub open spec fn full_form_files_start(debug: bool, level: Option<OptimizationLevel>) -> int {
    (if debug { 4int } else { 2 }) + (if level is Some { 2int } else { 0 })
}

/// A macro input written in full form — the base path, optionally `debug,`,
/// optionally a level keyword and a comma, then `n` files — parses to
/// exactly those parts (the level defaulting to `Default`, the debug
/// information to `Disabled`).
pub proof fn lemma_macro_input_parses(
    tokens: Seq<MacroToken>,
    debug: bool,
    level: Option<OptimizationLevel>,
    n: int,
)
    requires
        tokens.len() >= 2,
        tokens[0] is Str,
        tokens[1] is Comma,
        debug ==> is_ident_at(tokens, 2, "debug"@) && is_comma_at(tokens, 3),
        level matches Some(l) ==> l != OptimizationLevel::Maximal,
        level matches Some(l) ==> {
            let p = if debug { 4int } else { 2 };
            is_ident_at(tokens, p, level_keyword(l)) && is_comma_at(tokens, p + 1)
        },
        is_file_list(tokens, full_form_files_start(debug, level), n),
    ensures
        macro_input_spec(tokens) matches Ok(m) && {
            &&& m.base_path == tokens[0]->Str_0@
            &&& m.debug == (if debug { DebugInfoLevel::Maximal } else { DebugInfoLevel::Disabled })
            &&& m.opt_level == (match level {
                Some(l) => l,
                None => OptimizationLevel::Default,
            })
            &&& m.files.len() == n
            &&& forall|k: int| 0 <= k < n ==> #[trigger] m.files[k] == tokens[full_form_files_start(debug, level) + 2 * k]->Str_0@
        },
{
    reveal_strlit("debug");
    reveal_strlit("none");
    reveal_strlit("default");
    reveal_strlit("high");
    assert("debug"@.len() == 5 && "none"@.len() == 4 && "default"@.len() == 7 && "high"@.len() == 4);
    let p = if debug { 4int } else { 2 };
    let start = full_form_files_start(debug, level);
    lemma_file_list_parses(tokens, start, n);
    if n > 0 {
        assert(tokens[start + 2 * 0] is Str);
    }
    if let Some(l) = level {
        assert(level_keyword(l).len() != 5);
        assert("none"@[0] == 'n' && "high"@[0] == 'h');
        assert("none"@ != "high"@);
        assert(!is_ident_at(tokens, p, "debug"@));
        assert(opt_level_spec(tokens, p) == (l, p + 1));
        assert(is_comma_at(tokens, p + 1));
    } else {
        if n > 0 {
            assert(tokens[p] is Str);
        }
        assert(opt_level_spec(tokens, p) == (OptimizationLevel::Default, p));
        assert(!is_comma_at(tokens, p));
    }
    assert(debug == is_ident_at(tokens, 2, "debug"@));
}

/// The file-name suffix of Slang shader sources.
pub open spec fn slang_suffix() -> Seq<char> {
    ".slang"@
}

/// The name a shader file's constant gets: the file name with a trailing
/// `.slang` removed, or the whole file name when it does not end so.
pub open spec fn shader_name_spec(file: Seq<char>) -> Seq<char> {
    let n = file.len() as int;
    let m = slang_suffix().len() as int;
    if n >= m && file.subrange(n - m, n) == slang_suffix() {
        file.subrange(0, n - m)
    } else {
        file
    }
}

/// A file named `stem.slang` gives the shader name `stem`; a file whose
/// name does not end in `.slang` keeps its whole name.
pub proof fn lemma_shader_name_strips_suffix(stem: Seq<char>, file: Seq<char>)
    ensures
        shader_name_spec(stem + ".slang"@) == stem,
        !(file.len() >= 6 && file.subrange(file.len() - 6, file.len() as int) == ".slang"@)
            ==> shader_name_spec(file) == file,
{
    reveal_strlit(".slang");
    let f = stem + ".slang"@;
    assert(f.subrange(f.len() - 6, f.len() as int) == ".slang"@);
    assert(f.subrange(0, f.len() - 6) == stem);
}

/// The name of the shader compiled from `file`: `file` without a trailing
/// `.slang`.
pub fn shader_name(file: &str) -> (r: String)
    ensures
        r@ == shader_name_spec(file@),
{
    let suffix = ".slang";
    let n = file.unicode_len();
    let m = suffix.unicode_len();
    proof {
        assert(suffix@ == slang_suffix());
    }
    if n < m {
        return file.to_owned();
    }
    let start = n - m;
    let mut k: usize = 0;
    while k < m
        invariant
            k <= m,
            n == file@.len(),
            m == suffix@.len(),
            suffix@ == slang_suffix(),
            start == n - m,
            forall|j: int| 0 <= j < k ==> file@[start + j] == suffix@[j],
        decreases m - k,
    {
        if file.get_char(start + k) != suffix.get_char(k) {
            proof {
                assert(file@.subrange(start as int, n as int)[k as int] != slang_suffix()[k as int]);
            }
            return file.to_owned();
        }
        k = k + 1;
    }
    proof {
        assert(file@.subrange(start as int, n as int) =~= slang_suffix());
    }
    file.substring_char(0, start).to_owned()
}

/// Whether token `pos` is the identifier `word`.
fn ident_at(tokens: &Vec<MacroToken>, pos: usize, word: &str) -> (r: bool)
    ensures
        r == is_ident_at(tokens@, pos as int, word@),
{
    if pos < tokens.len() {
        match &tokens[pos] {
            MacroToken::Ident(s) => *s == String::from_str(word),
            _ => false,
        }
    } else {
        false
    }
}

/// Whether token `pos` is a comma.
fn comma_at(tokens: &Vec<MacroToken>, pos: usize) -> (r: bool)
    ensures
        r == is_comma_at(tokens@, pos as int),
{
    pos < tokens.len() && matches!(tokens[pos], MacroToken::Comma)
}

impl OptLvl {
    /// Reads an optional optimization level keyword at `pos`; returns the
    /// level and the position after it.
    pub fn parse(tokens: &Vec<MacroToken>, pos: usize) -> (r: (OptLvl, usize))
        requires
            pos < usize::MAX,
        ensures
            (r.0.0, r.1 as int) == opt_level_spec(tokens@, pos as int),
    {
        if ident_at(tokens, pos, "none") {
            (OptLvl(OptimizationLevel::Disabled), pos + 1)
        } else if ident_at(tokens, pos, "default") {
            (OptLvl(OptimizationLevel::Default), pos + 1)
        } else if ident_at(tokens, pos, "high") {
            (OptLvl(OptimizationLevel::High), pos + 1)
        } else {
            (OptLvl(OptimizationLevel::Default), pos)
        }
    }
}

/// Reads the comma-separated string literals from `pos` to the end.
fn parse_files(tokens: &Vec<MacroToken>, pos: usize) -> (r: Result<Vec<String>, MacroParseError>)
    ensures
        match r {
            Ok(v) => files_spec(tokens@, pos as int) == Ok::<Seq<Seq<char>>, MacroParseError>(
                v@.map_values(|s: String| s@),
            ),
            Err(e) => files_spec(tokens@, pos as int) == Err::<Seq<Seq<char>>, MacroParseError>(e),
        },
{
    let mut files: Vec<String> = Vec::new();
    let mut p = pos;
    while p < tokens.len()
        invariant
            pos <= p,
            files_spec(tokens@, pos as int) == match files_spec(tokens@, p as int) {
                Ok(rest) => Ok(files@.map_values(|s: String| s@) + rest),
                Err(e) => Err::<Seq<Seq<char>>, MacroParseError>(e),
            },
        decreases tokens.len() - p,
    {
        let s = match &tokens[p] {
            MacroToken::Str(s) => s.clone(),
            _ => {
                return Err(MacroParseError::ExpectedStringLiteral(p));
            },
        };
        let ghost before = files@;
        files.push(s);
        proof {
            assert(files@.map_values(|s: String| s@) == before.map_values(|s: String| s@) + seq![s@]);
        }
        if p + 1 >= tokens.len() {
            proof {
                assert(files_spec(tokens@, (p + 1) as int) == Ok::<Seq<Seq<char>>, MacroParseError>(Seq::empty()));
            }
            p = p + 1;
        } else if comma_at(tokens, p + 1) {
            proof {
                let next = files_spec(tokens@, (p + 2) as int);
                if next is Ok {
                    let rest = next->Ok_0;
                    assert(before.map_values(|s: String| s@) + (seq![s@] + rest) == files@.map_values(
                        |s: String| s@,
                    ) + rest);
                }
            }
            p = p + 2;
        } else {
            return Err(MacroParseError::ExpectedComma(p + 1));
        }
    }
    proof {
        assert(files@.map_values(|s: String| s@) + Seq::<Seq<char>>::empty() == files@.map_values(|s: String| s@));
    }
    Ok(files)
}

impl MacroInput {
    /// Parses the macro input from its tokens.
    pub fn parse(tokens: &Vec<MacroToken>) -> (r: Result<MacroInput, MacroParseError>)
        ensures
            match r {
                Ok(m) => macro_input_spec(tokens@) == Ok::<MacroInputSpec, MacroParseError>(m@),
                Err(e) => macro_input_spec(tokens@) == Err::<MacroInputSpec, MacroParseError>(e),
            },
    {
        let mut debug = DebugInfoLevel::Disabled;
        let base_path = if tokens.len() > 0 {
            match &tokens[0] {
                MacroToken::Str(s) => s.clone(),
                _ => {
                    return Err(MacroParseError::ExpectedStringLiteral(0));
                },
            }
        } else {
            return Err(MacroParseError::ExpectedStringLiteral(0));
        };
        if !comma_at(tokens, 1) {
            return Err(MacroParseError::ExpectedComma(1));
        }
        let mut pos: usize = 2;
        if ident_at(tokens, 2, "debug") {
            if !comma_at(tokens, 3) {
                return Err(MacroParseError::ExpectedComma(3));
            }
            debug = DebugInfoLevel::Maximal;
            pos = 4;
        }
        let (opt, after_opt) = OptLvl::parse(tokens, pos);
        let opt_level = opt.0;
        let files_start = if comma_at(tokens, after_opt) {
            after_opt + 1
        } else {
            after_opt
        };
        let files = match parse_files(tokens, files_start) {
            Ok(f) => f,
            Err(e) => {
                return Err(e);
            },
        };
        Ok(MacroInput { base_path, opt_level, debug, files })
    }
}

} // verus!
