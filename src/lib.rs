//! KaTeX, the math typesetting library, run inside an embedded QuickJS
//! engine: load the KaTeX module once, then ask it for its version or for
//! the markup of a LaTeX formula.
pub mod json;
pub mod render_options;

use render_options::RenderOptions;
use vstd::prelude::*;

verus! {

#[verifier::external_type_specification]
#[verifier::external_body]
pub struct ExContext(rquickjs::Context);

#[verifier::external_type_specification]
#[verifier::external_body]
pub struct ExError(rquickjs::Error);

/// Why a call into the engine gave no result.
#[derive(PartialEq, Eq, Structural, Clone, Copy, Debug)]
pub enum KatexError {
    /// The engine could not be started, or the module did not evaluate
    /// within its budget.
    Load,
    /// The engine gave no `default.version` string within the budget.
    Version,
    /// `default.renderToString` is missing, threw, ran out of its budget,
    /// or returned no string.
    Render,
}

/// One engine with the KaTeX module loaded. It belongs to the worker that
/// made it; dropping it tears the engine down.
pub struct Katex {
    context: rquickjs::Context,
    source: String,
}

/// How many times the engine may ask whether to go on within one call
/// before the call is cut short. QuickJS asks about once every ten thousand
/// steps of its interpreter.
pub const INTERRUPT_BUDGET: u64 = 10_000;

/// Counts one question of the engine whether to stop, and answers it: stop
/// once `budget` questions were answered with "go on". Once it says stop it
/// keeps saying so.
pub fn spend_budget(asked: &mut u64, budget: u64) -> (stop: bool)
    ensures
        stop == (*old(asked) >= budget),
        *final(asked) == if *old(asked) < budget { (*old(asked) + 1) as u64 } else { *old(asked) },
{
    if *asked < budget {
        *asked = *asked + 1;
        false
    } else {
        true
    }
}

impl Katex {
    /// The source text that this engine was made with. Where it was made by
    /// `from_loaded`, nothing checks that this is the text loaded in the
    /// engine.
    pub closed spec fn module(&self) -> Seq<char> {
        self.source@
    }

    /// Starts an engine and evaluates `module_source` in it as the ES module
    /// `katex` (KaTeX's `katex.mjs`), within `INTERRUPT_BUDGET`. A module
    /// whose evaluation has not settled once its code has run (a top-level
    /// `await` still waiting) is not loaded.
    pub fn new(module_source: String) -> (r: Result<Katex, KatexError>)
        ensures
            r matches Ok(k) ==> k.module() == module_source@,
            r matches Err(e) ==> e == KatexError::Load,
    {
        let outcome = load_module(module_source.as_str(), INTERRUPT_BUDGET);
        Katex::from_loaded(module_source, outcome)
    }

    /// The engine that loading `module_source` gave, where loading succeeded
    /// and the module's evaluation settled; `Load` otherwise.
    pub fn from_loaded(
        module_source: String,
        outcome: Result<(rquickjs::Context, Option<()>), rquickjs::Error>,
    ) -> (r: Result<Katex, KatexError>)
        ensures
            (outcome matches Ok((_, settled)) && settled is Some) <==> r is Ok,
            r matches Ok(k) ==> k.module() == module_source@,
            r matches Err(e) ==> e == KatexError::Load,
    {
        match outcome {
            Ok((context, Some(()))) => Ok(Katex { context, source: module_source }),
            Ok((_, None)) => Err(KatexError::Load),
            Err(_) => Err(KatexError::Load),
        }
    }
}

/// Relies on rquickjs's `Runtime::new`, `Runtime::set_interrupt_handler`,
/// `Context::full`, `Module::declare`, `Module::eval`, `Object::set` and
/// `Promise::result`: a fresh engine in which the module's code has run and
/// its namespace is bound to the global `katex`, with `Some(())` where the
/// evaluation fulfilled and `None` where it is still pending. No queued job
/// is run. The engine asks `spend_budget` whether to go on while it runs
/// code, and a "stop" ends the evaluation in an uncatchable exception.
#[verifier::external_body]
fn load_module(source: &str, budget: u64) -> (r: Result<(rquickjs::Context, Option<()>), rquickjs::Error>) {
    let runtime = rquickjs::Runtime::new()?;
    let mut asked: u64 = 0;
    runtime.set_interrupt_handler(Some(Box::new(move || spend_budget(&mut asked, budget))));
    let context = rquickjs::Context::full(&runtime)?;
    let settled = context.with(|ctx| {
        let (module, done) = rquickjs::Module::declare(ctx.clone(), "katex", source)?.eval()?;
        ctx.globals().set("katex", module.namespace()?)?;
        done.result::<()>().transpose()
    })?;
    Ok((context, settled))
}

/// Relies on rquickjs's `Runtime::set_interrupt_handler`, `Context::with`
/// and `Object::get`: reads `katex.default.version`, which must be a string,
/// with a fresh budget for the engine's code (a getter) that this runs.
#[verifier::external_body]
fn module_version(katex: &Katex, budget: u64) -> (r: Result<String, rquickjs::Error>) {
    let mut asked: u64 = 0;
    let runtime = katex.context.runtime();
    runtime.set_interrupt_handler(Some(Box::new(move || spend_budget(&mut asked, budget))));
    katex.context.with(|ctx| {
        let module: rquickjs::Object = ctx.globals().get("katex")?;
        module.get::<_, rquickjs::Object>("default")?.get("version")
    })
}

/// Relies on rquickjs's `Runtime::set_interrupt_handler`, `Context::with`,
/// `Object::get`, `Ctx::eval` and `Function::call`: calls
/// `katex.default.renderToString(latex, eval(options))`, whose result must
/// be a string, with a fresh budget for the engine's code.
#[verifier::external_body]
fn module_render(katex: &Katex, latex: &str, options: &str, budget: u64) -> (r: Result<String, rquickjs::Error>) {
    let mut asked: u64 = 0;
    let runtime = katex.context.runtime();
    runtime.set_interrupt_handler(Some(Box::new(move || spend_budget(&mut asked, budget))));
    katex.context.with(|ctx| {
        let module: rquickjs::Object = ctx.globals().get("katex")?;
        let render: rquickjs::Function = module.get::<_, rquickjs::Object>("default")?.get("renderToString")?;
        render.call((latex, ctx.eval::<rquickjs::Value, _>(options)?))
    })
}

/// The version that the engine gave, unchanged, or `Version` where the
/// lookup failed.
pub fn version_from(found: Result<String, rquickjs::Error>) -> (r: Result<String, KatexError>)
    ensures
        found is Ok <==> r is Ok,
        found matches Ok(v) ==> r matches Ok(w) && w@ == v@,
        r matches Err(e) ==> e == KatexError::Version,
{
    match found {
        Ok(v) => Ok(v),
        Err(_) => Err(KatexError::Version),
    }
}

/// The markup that the engine gave, unchanged, or `Render` where the call
/// failed.
pub fn markup_from(found: Result<String, rquickjs::Error>) -> (r: Result<String, KatexError>)
    ensures
        found is Ok <==> r is Ok,
        found matches Ok(s) ==> r matches Ok(w) && w@ == s@,
        r matches Err(e) ==> e == KatexError::Render,
{
    match found {
        Ok(s) => Ok(s),
        Err(_) => Err(KatexError::Render),
    }
}

/// The version of the loaded KaTeX module (`default.version`): the string
/// that the engine gives, or `Version` where it gives none.
pub fn get_version(katex: &Katex) -> (r: Result<String, KatexError>)
    ensures
        r matches Err(e) ==> e == KatexError::Version,
{
    version_from(module_version(katex, INTERRUPT_BUDGET))
}

/// Renders `latex` as markup with the given options: the string that the
/// module's `renderToString` returns for `latex` and the options object
/// `options_literal(options@)` evaluates to, or `Render` where it gives none.
pub fn render_with_options(katex: &Katex, latex: &str, options: &RenderOptions) -> (r: Result<
    String,
    KatexError,
>)
    ensures
        r matches Err(e) ==> e == KatexError::Render,
{
    let literal = options.to_literal();
    markup_from(module_render(katex, latex, literal.as_str(), INTERRUPT_BUDGET))
}

/// Renders `latex` as markup with the default options.
pub fn render_to_string(katex: &Katex, latex: String) -> (r: Result<String, KatexError>)
    ensures
        r matches Err(e) ==> e == KatexError::Render,
{
    let options = RenderOptions::default();
    render_with_options(katex, latex.as_str(), &options)
}

} // verus!
