use vstd::prelude::*;

use crate::errors::CoreError;
use crate::models::TemplateData;

verus! {

#[verifier::external_type_specification]
#[verifier::external_body]
pub struct ExHandlebars<'a>(handlebars::Handlebars<'a>);

/// The handlebars registry type as this crate uses it.
pub type HbRegistry = handlebars::Handlebars<'static>;

/// What a registry holds: each registered template name mapped to the
/// source text it was compiled from.
pub uninterp spec fn registry_templates(r: HbRegistry) -> Map<Seq<char>, Seq<char>>;

/// Whether template source text compiles: a function of the source alone.
pub uninterp spec fn template_compiles(src: Seq<char>) -> bool;

/// What rendering a registered template produces, as a function of the
/// whole registered set (a template may pull others in as partials), the
/// template name and the string-valued data fields.
pub uninterp spec fn render_of(
    templates: Map<Seq<char>, Seq<char>>,
    name: Seq<char>,
    data: Seq<(Seq<char>, Seq<char>)>,
) -> Seq<char>;

/// Whether rendering a registered template succeeds: with the default
/// helpers and escape and no I/O in play, success too is a function of
/// the registered set, the name and the data alone.
pub uninterp spec fn render_ok(
    templates: Map<Seq<char>, Seq<char>>,
    name: Seq<char>,
    data: Seq<(Seq<char>, Seq<char>)>,
) -> bool;

/// A template whose source text does not compile.
pub struct TemplateCompileFault;

/// Why a render call failed.
#[derive(Clone, Copy, Debug, PartialEq, Eq, Structural)]
pub enum RenderFault {
    /// The requested template name is not registered.
    NotFound,
    /// The renderer itself failed on a registered template.
    ServerError,
}

/// Relies on handlebars::Handlebars::new: a fresh registry holds no
/// templates (only the crate's built-in helpers, which carry no state).
#[verifier::external_body]
fn new_registry() -> (reg: HbRegistry)
    ensures
        registry_templates(reg) == (Map::<Seq<char>, Seq<char>>::empty()),
{
    handlebars::Handlebars::new()
}

/// Relies on handlebars::Handlebars::register_template_string: the source
/// is compiled and inserted under the name on success, and a compilation
/// error leaves the registry untouched; success is a function of the
/// source text alone.
#[verifier::external_body]
fn register_template(
    reg: &mut HbRegistry,
    name: &String,
    source: &String,
) -> (r: Result<(), TemplateCompileFault>)
    ensures
        (r is Ok) <==> template_compiles(source@),
        r is Ok ==> registry_templates(*final(reg)) == registry_templates(*old(reg)).insert(
            name@,
            source@,
        ),
        r is Err ==> *final(reg) == *old(reg),
{
    match reg.register_template_string(name.as_str(), source.as_str()) {
        Ok(()) => Ok(()),
        Err(_) => Err(TemplateCompileFault),
    }
}

/// Relies on handlebars::Handlebars::render, with the fields wrapped as a
/// JSON object of strings: whether the render succeeds and what it then
/// produces are both functions of the registered set, the name and the
/// data; an unregistered name fails with the renderer's missing-template
/// error and nothing else does.
#[verifier::external_body]
fn render_registered(
    reg: &HbRegistry,
    name: &String,
    fields: &Vec<(String, String)>,
) -> (r: Result<String, RenderFault>)
    ensures
        (r is Ok) <==> (registry_templates(*reg).contains_key(name@) && render_ok(
            registry_templates(*reg),
            name@,
            fields.deep_view(),
        )),
        r matches Ok(out) ==> out@ == render_of(
            registry_templates(*reg),
            name@,
            fields.deep_view(),
        ),
        (r == Err::<String, RenderFault>(RenderFault::NotFound)) <==> !registry_templates(
            *reg,
        ).contains_key(name@),
        (r == Err::<String, RenderFault>(RenderFault::ServerError)) <==> (registry_templates(
            *reg,
        ).contains_key(name@) && !render_ok(registry_templates(*reg), name@, fields.deep_view())),
{
    let mut data = serde_json::Map::new();
    for (k, v) in fields.iter() {
        data.insert(k.clone(), serde_json::Value::String(v.clone()));
    }
    match reg.render(name.as_str(), &serde_json::Value::Object(data)) {
        Ok(out) => Ok(out),
        Err(e) => match e.reason() {
            handlebars::RenderErrorReason::TemplateNotFound(_) => Err(RenderFault::NotFound),
            _ => Err(RenderFault::ServerError),
        },
    }
}

/// The registered set that compiling `rows` in order produces: later rows
/// overwrite earlier ones of the same name.
pub open spec fn spec_compiled(rows: Seq<TemplateData>) -> Map<Seq<char>, Seq<char>>
    decreases rows.len(),
{
    if rows.len() == 0 {
        Map::<Seq<char>, Seq<char>>::empty()
    } else {
        spec_compiled(rows.drop_last()).insert(rows.last().key@, rows.last().template@)
    }
}

/// The compiled template registry: a complete, ready-to-use set of named
/// templates. It is only ever built whole; readers never see one
/// mid-rebuild.
pub struct TemplateRegistry {
    registry: HbRegistry,
}

impl TemplateRegistry {
    /// The registered set, as the model the contracts speak of.
    pub closed spec fn templates(self) -> Map<Seq<char>, Seq<char>> {
        registry_templates(self.registry)
    }

    /// An empty registry.
    pub fn new() -> (r: TemplateRegistry)
        ensures
            r.templates() == (Map::<Seq<char>, Seq<char>>::empty()),
    {
        TemplateRegistry { registry: new_registry() }
    }

    /// Build a fresh registry from fetched rows, compiling every row in
    /// order. All-or-nothing: one row that fails to compile fails the whole
    /// build, and nothing half-built is ever handed out.
    pub fn compile_all(rows: &Vec<TemplateData>) -> (r: Result<TemplateRegistry, CoreError>)
        ensures
            (r is Ok) <==> (forall|i: int|
                0 <= i < rows@.len() ==> template_compiles(rows@[i].template@)),
            r matches Ok(reg) ==> reg.templates() == spec_compiled(rows@),
            r is Err ==> (r == Err::<TemplateRegistry, CoreError>(CoreError::ReloadFailure)),
    {
        let mut reg = new_registry();
        proof {
            assert(rows@.take(0) =~= Seq::<TemplateData>::empty());
        }
        let n = rows.len();
        for i in 0..n
            invariant
                n == rows@.len(),
                registry_templates(reg) == spec_compiled(rows@.take(i as int)),
                forall|j: int| 0 <= j < i ==> template_compiles(rows@[j].template@),
        {
            let row = &rows[i];
            match register_template(&mut reg, &row.key, &row.template) {
                Ok(()) => {
                    proof {
                        assert(rows@.take(i + 1).drop_last() =~= rows@.take(i as int));
                        assert(rows@.take(i + 1).last() == rows@[i as int]);
                    }
                },
                Err(_) => {
                    assert(!template_compiles(rows@[i as int].template@));
                    return Err(CoreError::ReloadFailure);
                },
            }
        }
        proof {
            assert(rows@.take(n as int) =~= rows@);
        }
        Ok(TemplateRegistry { registry: reg })
    }

    /// Render a registered template with string-valued fields, classifying
    /// a failure as the spec's collaborator contract asks: a missing name
    /// is the caller's not-found, a registered name that fails to render a
    /// renderer-internal fault, and nothing else ever fails.
    pub fn render(&self, name: &String, fields: &Vec<(String, String)>) -> (r: Result<
        String,
        RenderFault,
    >)
        ensures
            (r is Ok) <==> (self.templates().contains_key(name@) && render_ok(
                self.templates(),
                name@,
                fields.deep_view(),
            )),
            r matches Ok(out) ==> out@ == render_of(
                self.templates(),
                name@,
                fields.deep_view(),
            ),
            (r == Err::<String, RenderFault>(RenderFault::NotFound)) <==> !self.templates(
            ).contains_key(name@),
            (r == Err::<String, RenderFault>(RenderFault::ServerError)) <==> (self.templates(
            ).contains_key(name@) && !render_ok(self.templates(), name@, fields.deep_view())),
    {
        render_registered(&self.registry, name, fields)
    }
}

} // verus!
