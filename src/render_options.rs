//! The options of one rendering call, and their marshaling into the text of
//! a JavaScript expression for the object that KaTeX's `renderToString`
//! takes as its second argument.
use crate::json::{append_decimal, append_json_string, decimal, json_string};
use vstd::prelude::*;
use vstd::string::*;

verus! {

/// The markup language of the rendered output.
#[derive(PartialEq, Eq, Structural, Clone, Copy, Debug)]
pub enum OutputType {
    /// Uses both HTML for visual rendering and MathML for accessibility (the default).
    HTMLAndMathML,
    /// Use exclusively HTML.
    HTML,
    /// Use exclusively MathML.
    MathML,
}

impl OutputType {
    /// The option value that KaTeX expects for this output type.
    pub open spec fn js_name(self) -> Seq<char> {
        match self {
            OutputType::HTMLAndMathML => "htmlAndMathml"@,
            OutputType::HTML => "html"@,
            OutputType::MathML => "mathml"@,
        }
    }

    pub fn as_str(&self) -> (r: &'static str)
        ensures
            r@ == self.js_name(),
    {
        match self {
            OutputType::HTMLAndMathML => "htmlAndMathml",
            OutputType::HTML => "html",
            OutputType::MathML => "mathml",
        }
    }
}

/// Strictness with regard to non-standard LaTeX convenience features of KaTeX.
#[derive(PartialEq, Eq, Structural, Clone, Copy, Debug)]
pub enum Strictness {
    /// Warn about such behaviour through `console.warn()`; the engine offers
    /// KaTeX no `console`, so nothing is printed.
    Warn,
    /// Allow convenient but non-standard LaTeX features.
    Ignore,
    /// Throw an error when non-standard LaTeX features are used.
    Error,
}

impl Strictness {
    /// The option value that KaTeX expects for this strictness.
    pub open spec fn js_name(self) -> Seq<char> {
        match self {
            Strictness::Warn => "warn"@,
            Strictness::Ignore => "ignore"@,
            Strictness::Error => "error"@,
        }
    }

    pub fn as_str(&self) -> (r: &'static str)
        ensures
            r@ == self.js_name(),
    {
        match self {
            Strictness::Warn => "warn",
            Strictness::Ignore => "ignore",
            Strictness::Error => "error",
        }
    }
}

/// The kinds of non-standard usage that KaTeX reports under its strict mode.
#[derive(PartialEq, Eq, Structural, Clone, Copy, Debug)]
pub enum ErrorCode {
    UnknownSymbol,
    UnicodeTextInMathMode,
    MathVsTextUnits,
    CommentAtEnd,
    HtmlExtension,
    NewLineInDisplayMode,
}

impl ErrorCode {
    /// The code that KaTeX uses for this kind.
    pub open spec fn js_name(self) -> Seq<char> {
        match self {
            ErrorCode::UnknownSymbol => "unknownSymbol"@,
            ErrorCode::UnicodeTextInMathMode => "unicodeTextInMathMode"@,
            ErrorCode::MathVsTextUnits => "mathVsTextUnits"@,
            ErrorCode::CommentAtEnd => "commentAtEnd"@,
            ErrorCode::HtmlExtension => "htmlExtension"@,
            ErrorCode::NewLineInDisplayMode => "newLineInDisplayMode"@,
        }
    }

    pub fn as_str(&self) -> (r: &'static str)
        ensures
            r@ == self.js_name(),
    {
        match self {
            ErrorCode::UnknownSymbol => "unknownSymbol",
            ErrorCode::UnicodeTextInMathMode => "unicodeTextInMathMode",
            ErrorCode::MathVsTextUnits => "mathVsTextUnits",
            ErrorCode::CommentAtEnd => "commentAtEnd",
            ErrorCode::HtmlExtension => "htmlExtension",
            ErrorCode::NewLineInDisplayMode => "newLineInDisplayMode",
        }
    }
}

/// An upper limit that KaTeX applies: a decimal number, or none at all.
#[derive(PartialEq, Eq, Structural, Clone, Copy, Debug)]
pub enum Limit {
    /// The number `mantissa` × 10^-`scale` (`12.5` is mantissa 125, scale 1).
    Finite { mantissa: u64, scale: u32 },
    /// No limit (KaTeX's `Infinity`).
    Unbounded,
}

pub struct RenderOptions {
    /// If `true`, math is rendered in display mode, else in inline mode.
    pub display_mode: bool,
    /// The markup language of the output.
    pub output: OutputType,
    /// Render `\tag` on the left instead of the right (as in `\usepackage[leqno]{amsmath}`).
    pub leqno: bool,
    /// Whether display math renders flush left (as in `\documentclass[fleqn]`).
    pub fleqn: bool,
    /// Whether to throw a `ParseError` on an unsupported command or invalid
    /// LaTeX; if `false`, KaTeX renders unsupported commands as text and
    /// invalid LaTeX as its source, in the color `error_color`.
    pub throw_on_error: bool,
    pub error_color: String,
    /// Macro names and their expansions. A later entry for a name replaces
    /// an earlier one: only the last goes to KaTeX.
    pub macros: Vec<(String, String)>,
    pub min_rule_thickness: Option<usize>,
    pub color_is_text_color: bool,
    pub strict: Strictness,
    /// Whether to allow commands that could enable adverse behaviour, such
    /// as `\includegraphics` or `\href`.
    pub trust: bool,
    /// The largest size, in em, that a user may give to a box.
    pub max_size: Limit,
    /// The largest number of macro expansions in one rendering.
    pub max_expand: Limit,
    pub global_group: bool,
}

/// What a `RenderOptions` holds, over mathematical values.
pub struct RenderOptionsView {
    pub display_mode: bool,
    pub output: OutputType,
    pub leqno: bool,
    pub fleqn: bool,
    pub throw_on_error: bool,
    pub error_color: Seq<char>,
    pub macros: Seq<(Seq<char>, Seq<char>)>,
    pub min_rule_thickness: Option<usize>,
    pub color_is_text_color: bool,
    pub strict: Strictness,
    pub trust: bool,
    pub max_size: Limit,
    pub max_expand: Limit,
    pub global_group: bool,
}

/// The macro table as pairs of character sequences.
pub open spec fn macros_view(m: Seq<(String, String)>) -> Seq<(Seq<char>, Seq<char>)> {
    m.map_values(|p: (String, String)| (p.0@, p.1@))
}

impl View for RenderOptions {
    type V = RenderOptionsView;

    open spec fn view(&self) -> RenderOptionsView {
        RenderOptionsView {
            display_mode: self.display_mode,
            output: self.output,
            leqno: self.leqno,
            fleqn: self.fleqn,
            throw_on_error: self.throw_on_error,
            error_color: self.error_color@,
            macros: macros_view(self.macros@),
            min_rule_thickness: self.min_rule_thickness,
            color_is_text_color: self.color_is_text_color,
            strict: self.strict,
            trust: self.trust,
            max_size: self.max_size,
            max_expand: self.max_expand,
            global_group: self.global_group,
        }
    }
}

/// The options that a rendering call uses when the caller gives none.
pub open spec fn default_options() -> RenderOptionsView {
    RenderOptionsView {
        display_mode: false,
        output: OutputType::HTMLAndMathML,
        leqno: false,
        fleqn: false,
        throw_on_error: false,
        error_color: "#cc0000"@,
        macros: Seq::empty(),
        min_rule_thickness: None,
        color_is_text_color: false,
        strict: Strictness::Warn,
        trust: true,
        max_size: Limit::Unbounded,
        max_expand: Limit::Finite { mantissa: 1000, scale: 0 },
        global_group: false,
    }
}

impl Default for RenderOptions {
    fn default() -> (r: Self)
        ensures
            r@ == default_options(),
    {
        let r = RenderOptions {
            display_mode: false,
            output: OutputType::HTMLAndMathML,
            leqno: false,
            fleqn: false,
            throw_on_error: false,
            error_color: String::from_str("#cc0000"),
            macros: Vec::new(),
            min_rule_thickness: None,
            color_is_text_color: false,
            strict: Strictness::Warn,
            trust: true,
            max_size: Limit::Unbounded,
            max_expand: Limit::Finite { mantissa: 1000, scale: 0 },
            global_group: false,
        };
        assert(r@.macros =~= Seq::<(Seq<char>, Seq<char>)>::empty());
        r
    }
}

pub open spec fn bool_literal(b: bool) -> Seq<char> {
    if b {
        "true"@
    } else {
        "false"@
    }
}

/// A limit as a JavaScript number.
pub open spec fn limit_literal(l: Limit) -> Seq<char> {
    match l {
        Limit::Finite { mantissa, scale } => if scale == 0 {
            decimal(mantissa as nat)
        } else {
            decimal(mantissa as nat) + "e-"@ + decimal(scale as nat)
        },
        Limit::Unbounded => "Infinity"@,
    }
}

/// The first member of an object literal: key, colon, value.
pub open spec fn first_member(key: Seq<char>, value: Seq<char>) -> Seq<char> {
    json_string(key) + ":"@ + value
}

/// A later member of an object literal, after its separating comma.
pub open spec fn member(key: Seq<char>, value: Seq<char>) -> Seq<char> {
    ","@ + first_member(key, value)
}

pub open spec fn macro_entry(p: (Seq<char>, Seq<char>)) -> Seq<char> {
    first_member(p.0, json_string(p.1))
}

/// The members of the macro table's object literal, in order.
pub open spec fn macro_entries(m: Seq<(Seq<char>, Seq<char>)>) -> Seq<char>
    decreases m.len(),
{
    if m.len() == 0 {
        Seq::empty()
    } else if m.len() == 1 {
        macro_entry(m[0])
    } else {
        macro_entries(m.drop_last()) + ","@ + macro_entry(m.last())
    }
}

/// Whether a later entry of `m` has the same name as entry `i`.
pub open spec fn shadowed(m: Seq<(Seq<char>, Seq<char>)>, i: int) -> bool {
    exists|j: int| i < j < m.len() && #[trigger] m[j].0 == m[i].0
}

/// The entries among the first `n` of `m` that no later entry of `m`
/// shadows, in order: the table as a map from names to expansions, where a
/// later entry for a name replaces an earlier one.
pub open spec fn kept_upto(m: Seq<(Seq<char>, Seq<char>)>, n: int) -> Seq<(Seq<char>, Seq<char>)>
    decreases n,
{
    if n <= 0 {
        Seq::empty()
    } else if shadowed(m, n - 1) {
        kept_upto(m, n - 1)
    } else {
        kept_upto(m, n - 1).push(m[n - 1])
    }
}

/// The macro table as an object literal with one member for each name, holding
/// that name's last expansion.
pub open spec fn macros_literal(m: Seq<(Seq<char>, Seq<char>)>) -> Seq<char> {
    "{"@ + macro_entries(kept_upto(m, m.len() as int)) + "}"@
}

/// A thickness that may be unset, which KaTeX reads as its own default.
pub open spec fn optional_literal(t: Option<usize>) -> Seq<char> {
    match t {
        Some(n) => decimal(n as nat),
        None => "undefined"@,
    }
}

/// The expression, in parentheses, for the object handed to KaTeX for
/// options `o`: each field under KaTeX's camelCase name, in the order of the
/// fields. Keys and strings are written as JSON string literals, which are
/// JavaScript string literals too.
pub open spec fn options_literal(o: RenderOptionsView) -> Seq<char> {
    "({"@
        + first_member("displayMode"@, bool_literal(o.display_mode))
        + member("output"@, json_string(o.output.js_name()))
        + member("leqno"@, bool_literal(o.leqno))
        + member("fleqn"@, bool_literal(o.fleqn))
        + member("throwOnError"@, bool_literal(o.throw_on_error))
        + member("errorColor"@, json_string(o.error_color))
        + member("macros"@, macros_literal(o.macros))
        + member("minRuleThickness"@, optional_literal(o.min_rule_thickness))
        + member("colorIsTextColor"@, bool_literal(o.color_is_text_color))
        + member("strict"@, json_string(o.strict.js_name()))
        + member("trust"@, bool_literal(o.trust))
        + member("maxSize"@, limit_literal(o.max_size))
        + member("maxExpand"@, limit_literal(o.max_expand))
        + member("globalGroup"@, bool_literal(o.global_group))
        + "})"@
}

fn append_bool(out: &mut String, b: bool)
    ensures
        final(out)@ == old(out)@ + bool_literal(b),
{
    if b {
        out.append("true");
    } else {
        out.append("false");
    }
}

fn append_limit(out: &mut String, l: Limit)
    ensures
        final(out)@ == old(out)@ + limit_literal(l),
{
    match l {
        Limit::Finite { mantissa, scale } => {
            append_decimal(out, mantissa);
            if scale != 0 {
                out.append("e-");
                append_decimal(out, scale as u64);
            }
        },
        Limit::Unbounded => out.append("Infinity"),
    }
}

/// Appends `,` (unless `first`), the key as a JSON string, and `:`.
fn append_key(out: &mut String, first: bool, key: &str)
    ensures
        final(out)@ == old(out)@ + (if first { Seq::empty() } else { ","@ }) + json_string(key@)
            + ":"@,
{
    let ghost start = out@;
    if !first {
        out.append(",");
    }
    append_json_string(out, key);
    out.append(":");
    assert(out@ =~= start + (if first { Seq::empty() } else { ","@ }) + json_string(key@) + ":"@);
}

fn append_bool_member(out: &mut String, key: &str, b: bool)
    ensures
        final(out)@ == old(out)@ + member(key@, bool_literal(b)),
{
    let ghost start = out@;
    append_key(out, false, key);
    append_bool(out, b);
    assert(out@ =~= start + member(key@, bool_literal(b)));
}

fn append_string_member(out: &mut String, key: &str, s: &str)
    ensures
        final(out)@ == old(out)@ + member(key@, json_string(s@)),
{
    let ghost start = out@;
    append_key(out, false, key);
    append_json_string(out, s);
    assert(out@ =~= start + member(key@, json_string(s@)));
}

fn append_limit_member(out: &mut String, key: &str, l: Limit)
    ensures
        final(out)@ == old(out)@ + member(key@, limit_literal(l)),
{
    let ghost start = out@;
    append_key(out, false, key);
    append_limit(out, l);
    assert(out@ =~= start + member(key@, limit_literal(l)));
}

fn append_optional(out: &mut String, t: Option<usize>)
    ensures
        final(out)@ == old(out)@ + optional_literal(t),
{
    match t {
        Some(n) => append_decimal(out, n as u64),
        None => out.append("undefined"),
    }
}

fn append_optional_member(out: &mut String, key: &str, t: Option<usize>)
    ensures
        final(out)@ == old(out)@ + member(key@, optional_literal(t)),
{
    let ghost start = out@;
    append_key(out, false, key);
    append_optional(out, t);
    assert(out@ =~= start + member(key@, optional_literal(t)));
}

/// Whether a later entry of `macros` than entry `i` has the same name.
fn is_shadowed(macros: &Vec<(String, String)>, i: usize) -> (r: bool)
    requires
        i < macros@.len(),
    ensures
        r == shadowed(macros_view(macros@), i as int),
{
    let ghost m = macros_view(macros@);
    let n = macros.len();
    let mut j: usize = i + 1;
    while j < n
        invariant
            m == macros_view(macros@),
            n == macros@.len(),
            i < j <= n,
            forall|k: int| i < k < j ==> m[k].0 != m[i as int].0,
        decreases n - j,
    {
        if macros[j].0 == macros[i].0 {
            assert(m[j as int].0 == m[i as int].0);
            return true;
        }
        j = j + 1;
    }
    false
}

fn append_macros_member(out: &mut String, macros: &Vec<(String, String)>)
    ensures
        final(out)@ == old(out)@ + member("macros"@, macros_literal(macros_view(macros@))),
{
    let ghost start = out@;
    let ghost m = macros_view(macros@);
    append_key(out, false, "macros");
    let ghost head = out@;
    out.append("{");
    let mut written: usize = 0;
    let mut i: usize = 0;
    while i < macros.len()
        invariant
            m == macros_view(macros@),
            i <= macros@.len(),
            written == kept_upto(m, i as int).len(),
            written <= i,
            out@ == head + "{"@ + macro_entries(kept_upto(m, i as int)),
        decreases macros@.len() - i,
    {
        let ghost kept = kept_upto(m, i as int);
        if !is_shadowed(macros, i) {
            append_key(out, written == 0, macros[i].0.as_str());
            append_json_string(out, macros[i].1.as_str());
            proof {
                let t = kept.push(m[i as int]);
                assert(t == kept_upto(m, i + 1));
                assert(t.drop_last() =~= kept);
                assert(m[i as int] == (macros@[i as int].0@, macros@[i as int].1@));
                assert(out@ =~= head + "{"@ + macro_entries(t));
            }
            written = written + 1;
        }
        i = i + 1;
    }
    out.append("}");
    assert(out@ =~= start + member("macros"@, macros_literal(m)));
}

impl RenderOptions {
    /// The options as the text of the expression for the object that
    /// KaTeX reads.
    pub fn to_literal(&self) -> (r: String)
        ensures
            r@ == options_literal(self@),
    {
        let mut out = String::from_str("({");
        append_key(&mut out, true, "displayMode");
        append_bool(&mut out, self.display_mode);
        assert(out@ =~= "({"@ + first_member("displayMode"@, bool_literal(self.display_mode)));
        append_string_member(&mut out, "output", self.output.as_str());
        append_bool_member(&mut out, "leqno", self.leqno);
        append_bool_member(&mut out, "fleqn", self.fleqn);
        append_bool_member(&mut out, "throwOnError", self.throw_on_error);
        append_string_member(&mut out, "errorColor", self.error_color.as_str());
        append_macros_member(&mut out, &self.macros);
        append_optional_member(&mut out, "minRuleThickness", self.min_rule_thickness);
        append_bool_member(&mut out, "colorIsTextColor", self.color_is_text_color);
        append_string_member(&mut out, "strict", self.strict.as_str());
        append_bool_member(&mut out, "trust", self.trust);
        append_limit_member(&mut out, "maxSize", self.max_size);
        append_limit_member(&mut out, "maxExpand", self.max_expand);
        append_bool_member(&mut out, "globalGroup", self.global_group);
        out.append("})");
        out
    }
}

} // verus!
