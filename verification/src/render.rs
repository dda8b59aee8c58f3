//! The index-page render path: a template set compiled once per process and
//! cached in an initialize-once cell, a render context binding the clock's
//! formatted date and time, and the render of the entry-point template.
//!
//! The template set lives under the `templates` directory. The glob load
//! registers each file under its path with the directory prefix stripped,
//! so the entry point `templates/index.html` renders under the name
//! `index.html`; loading it again by file path also registers it under the
//! full path, as a load failure there names the entry point exactly.

use vstd::prelude::*;
use crate::clock::Clock;
use crate::clock::current_clock;
use crate::clock::date_chars;
use crate::clock::format_date;
use crate::clock::format_time;
use crate::clock::time_chars;
use crate::errors::RenderError;

verus! {

#[verifier::external_type_specification]
#[verifier::external_body]
pub struct ExTera(tera::Tera);

#[verifier::external_type_specification]
#[verifier::external_body]
pub struct ExContext(tera::Context);

#[verifier::external_type_specification]
#[verifier::external_body]
pub struct ExTeraError(tera::Error);

#[verifier::external_type_specification]
#[verifier::external_body]
#[verifier::reject_recursive_types(T)]
pub struct ExOnceCell<T>(once_cell::sync::OnceCell<T>);

/// The string-valued bindings a render context holds, as a map from
/// variable name to value.
pub uninterp spec fn context_strings(c: tera::Context) -> Map<Seq<char>, Seq<char>>;

/// The bindings of a context that binds nothing.
pub open spec fn no_bindings() -> Map<Seq<char>, Seq<char>> {
    Map::empty()
}

/// Relies on tera::Context::new: a context with no bindings.
#[verifier::external_body]
fn context_new() -> (r: tera::Context)
    ensures
        context_strings(r) == no_bindings(),
{
    tera::Context::new()
}

/// Relies on tera::Context::insert: serializes the value (for a string,
/// to that same string, which cannot fail) and binds the key to it,
/// replacing any earlier binding of the key.
#[verifier::external_body]
fn context_insert(c: &mut tera::Context, key: &str, value: &String)
    ensures
        context_strings(*final(c)) == context_strings(*old(c)).insert(key@, value@),
{
    c.insert(key, value)
}

/// Relies on tera::Tera::new: loads and parses every template file that
/// matches the glob, returning the first read or parse error; what comes
/// back depends on what is on disk. The loader panics on a malformed glob
/// pattern, so the argument is pinned to the one well-formed glob this
/// library compiles.
#[verifier::external_body]
fn tera_new(dir: &str) -> (r: Result<tera::Tera, tera::Error>)
    requires
        dir@ == "templates/**/*"@,
{
    tera::Tera::new(dir)
}

/// The sources that parse and register successfully as the one template
/// `index.html` of an otherwise empty template set.
pub uninterp spec fn index_source_ok(source: Seq<char>) -> bool;

/// Relies on tera::Tera::add_template_file: reads and parses the file and
/// registers it under its path, returning the error when it cannot be read
/// or parsed; what comes back depends on what is on disk.
#[verifier::external_body]
fn tera_add_template_file(t: &mut tera::Tera, path: &str) -> (r: Result<(), tera::Error>)
{
    t.add_template_file(path, None)
}

/// Relies on tera::Tera::default and tera::Tera::add_raw_template: on a
/// template set holding nothing else, the parse, registration and
/// inheritance checks read only the source and the fixed entry-point name,
/// so whether the call succeeds is a function of the source alone.
#[verifier::external_body]
fn tera_from_index_source(name: &str, source: &str) -> (r: Result<tera::Tera, tera::Error>)
    requires
        name@ == "index.html"@,
    ensures
        r is Ok <==> index_source_ok(source@),
{
    let mut t = tera::Tera::default();
    match t.add_raw_template(name, source) {
        Ok(_) => Ok(t),
        Err(e) => Err(e),
    }
}

/// Relies on tera::Tera::render: renders the named template against the
/// context, returning an error when no template of that name is registered,
/// a variable the template needs is unbound, or evaluation fails.
#[verifier::external_body]
fn tera_render(t: &tera::Tera, name: &str, c: &tera::Context) -> (r: Result<String, tera::Error>)
{
    t.render(name, c)
}

/// Relies on the Display impl of tera::Error through ToString: a
/// human-readable description of the failure.
#[verifier::external_body]
fn tera_error_text(e: &tera::Error) -> (r: String) {
    e.to_string()
}

/// Relies on once_cell::sync::OnceCell::new: an empty cell.
#[verifier::external_body]
fn cell_new() -> (c: once_cell::sync::OnceCell<tera::Tera>) {
    once_cell::sync::OnceCell::new()
}

/// Relies on once_cell::sync::OnceCell::get_or_try_init: returns the stored
/// value, first storing the closure's Ok result if the cell was empty; even
/// under concurrent callers the closure runs at most once per cell, and an
/// Err from it is handed through with the cell left empty. The closure here
/// only calls `compile_index_templates`, whose contract makes every error a
/// `Compile` error.
#[verifier::external_body]
fn cell_get_or_compile<'a>(c: &'a once_cell::sync::OnceCell<tera::Tera>) -> (r: Result<
    &'a tera::Tera,
    RenderError,
>)
    ensures
        r matches Err(e) ==> e is Compile,
{
    c.get_or_try_init(compile_index_templates)
}

/// Compiles the template set: every file under the `templates` directory
/// tree, then the entry point `templates/index.html` registered under its
/// path. Every failure is reported as a `Compile` error carrying the
/// loader's or parser's diagnostic.
pub fn compile_index_templates() -> (r: Result<tera::Tera, RenderError>)
    ensures
        r matches Err(e) ==> e is Compile,
{
    match tera_new("templates/**/*") {
        Ok(t) => {
            let mut t = t;
            match tera_add_template_file(&mut t, "templates/index.html") {
                Ok(_) => Ok(t),
                Err(e) => Err(RenderError::Compile(tera_error_text(&e))),
            }
        },
        Err(e) => Err(RenderError::Compile(tera_error_text(&e))),
    }
}

/// Compiles a template set holding one template built from in-memory
/// source, registered under the entry-point name `index.html`. It succeeds
/// exactly when the source parses as that one template; a failure is
/// reported as a `Compile` error.
pub fn compile_index_source(source: &str) -> (r: Result<tera::Tera, RenderError>)
    ensures
        r is Ok <==> index_source_ok(source@),
        r matches Err(e) ==> e is Compile,
{
    match tera_from_index_source("index.html", source) {
        Ok(t) => Ok(t),
        Err(e) => Err(RenderError::Compile(tera_error_text(&e))),
    }
}

/// Builds the render context for the index page: exactly two bindings,
/// `date` to the given date text and `time` to the given time text.
pub fn build_context(date: &String, time: &String) -> (c: tera::Context)
    ensures
        context_strings(c) == no_bindings().insert("date"@, date@).insert("time"@, time@),
{
    let mut c = context_new();
    context_insert(&mut c, "date", date);
    context_insert(&mut c, "time", time);
    c
}

/// Renders the entry-point template `index.html` of an already compiled
/// set at the given clock: the context binds exactly `date` to the clock's
/// `YYYY-MM-DD` date and `time` to its `HH:MM:SS` time of day. A failure
/// of the render itself is reported as a `Render` error.
pub fn render_index_with(t: &tera::Tera, clock: &Clock) -> (r: Result<String, RenderError>)
    requires
        clock.valid(),
    ensures
        r matches Err(e) ==> e is Render,
{
    let date = format_date(clock);
    let time = format_time(clock);
    proof {
        assert(date@ == date_chars(*clock));
        assert(time@ == time_chars(*clock));
    }
    let context = build_context(&date, &time);
    match tera_render(t, "index.html", &context) {
        Ok(html) => Ok(html),
        Err(e) => Err(RenderError::Render(tera_error_text(&e))),
    }
}

/// The compiled-template cache: an initialize-once cell that holds the
/// compiled set for the life of the process. The first render compiles it;
/// every later render reuses the same compiled artifact.
pub struct TemplateCache {
    cell: once_cell::sync::OnceCell<tera::Tera>,
}

impl TemplateCache {
    /// Creates an empty cache: nothing is compiled until the first use.
    pub fn new() -> (c: TemplateCache) {
        TemplateCache { cell: cell_new() }
    }

    /// Returns the compiled template set, compiling it on the first call
    /// and reusing it afterwards; every failure is a `Compile` error.
    pub fn get_index_template<'a>(&'a self) -> (r: Result<&'a tera::Tera, RenderError>)
        ensures
            r matches Err(e) ==> e is Compile,
    {
        cell_get_or_compile(&self.cell)
    }

    /// Renders the index page at the given clock: compiles the template set
    /// if this cache has none yet, then renders `index.html` against a
    /// context binding `date` and `time` to the clock's formatted fields.
    /// A compilation failure is a `Compile` error, a failure of the render
    /// itself a `Render` error.
    pub fn render_index_at(&self, clock: &Clock) -> (r: Result<String, RenderError>)
        requires
            clock.valid(),
        ensures
            r matches Err(e) ==> e is Compile || e is Render,
    {
        match self.get_index_template() {
            Ok(t) => render_index_with(t, clock),
            Err(e) => Err(e),
        }
    }

    /// Renders the index page at the current local time. A `Render` error
    /// also covers the one clock the page cannot carry: a machine year
    /// outside `0..=9999`.
    pub fn render_index(&self) -> (r: Result<String, RenderError>)
        ensures
            r matches Err(e) ==> e is Compile || e is Render,
    {
        match current_clock() {
            Some(clock) => self.render_index_at(&clock),
            None => Err(
                RenderError::Render(String::from_str("the clock year cannot be formatted")),
            ),
        }
    }
}

/// The body of the greeting page.
pub fn message() -> (r: String)
    ensures
        r@ == "Brought to you by htmx"@,
{
    String::from_str("Brought to you by htmx")
}

} // verus!
