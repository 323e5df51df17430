//! The template environment that projects are rendered in, and the files a
//! project is made of.

use vstd::prelude::*;
use crate::errors::GeneratorError;

verus! {

/// The template environment of the `minijinja` crate: a store of compiled
/// templates with the configuration they are compiled under. The library
/// knows it through [`registered_templates`] and
/// [`has_default_template_config`].
#[verifier::external_type_specification]
#[verifier::external_body]
pub struct ExEnvironment<'source>(minijinja::Environment<'source>);

/// The environment that project templates are registered in.
pub type TemplateEnvironment = minijinja::Environment<'static>;

/// The templates added to an environment from borrowed sources, by name,
/// each with its source.
pub uninterp spec fn registered_templates(env: TemplateEnvironment) -> Map<Seq<char>, Seq<char>>;

/// Whether the environment compiles templates under the configuration that
/// `minijinja::Environment::new` gives it: the default syntax, whitespace
/// handling and auto-escaping.
pub uninterp spec fn has_default_template_config(env: TemplateEnvironment) -> bool;

/// Whether `minijinja` compiles the source, registered under the name, in
/// the default template configuration.
pub uninterp spec fn template_compiles(name: Seq<char>, source: Seq<char>) -> bool;

/// No templates at all.
pub open spec fn no_templates() -> Map<Seq<char>, Seq<char>> {
    Map::empty()
}

/// `minijinja::Environment::new`: the new environment has no templates
/// added from borrowed sources, and the default template configuration.
#[verifier::external_body]
fn new_environment() -> (env: TemplateEnvironment)
    ensures
        registered_templates(env) == no_templates(),
        has_default_template_config(env),
{
    minijinja::Environment::new()
}

/// `minijinja::Environment::add_template`: the template is compiled under
/// the environment's configuration. In the default configuration the call
/// succeeds exactly when the source compiles. On success the template is
/// registered under the name, in place of any earlier one; on failure the
/// templates from borrowed sources stay as they were. The configuration is
/// kept either way.
#[verifier::external_body]
fn add_template(env: &mut TemplateEnvironment, name: &'static str, source: &'static str)
    -> (result: Result<(), minijinja::Error>)
    ensures
        has_default_template_config(*old(env)) ==> (result is Ok <==> template_compiles(name@, source@)),
        has_default_template_config(*final(env)) == has_default_template_config(*old(env)),
        result is Ok ==> registered_templates(*final(env)) == registered_templates(*old(env)).insert(name@, source@),
        result is Err ==> registered_templates(*final(env)) == registered_templates(*old(env)),
{
    env.add_template(name, source)
}

/// The templates of a table, by name; a later entry replaces an earlier
/// one of the same name.
pub open spec fn table_map(table: Seq<(&'static str, &'static str)>) -> Map<Seq<char>, Seq<char>>
    decreases table.len(),
{
    if table.len() == 0 {
        Map::empty()
    } else {
        table_map(table.drop_last()).insert(table.last().0@, table.last().1@)
    }
}

/// Whether every template of the table compiles.
pub open spec fn all_compile(table: Seq<(&'static str, &'static str)>) -> bool {
    forall|i: int| 0 <= i < table.len() ==> template_compiles((#[trigger] table[i]).0@, table[i].1@)
}

/// Creates an environment with every template of the table registered.
/// It succeeds exactly when every template compiles; the first template
/// that does not compile ends it with its error.
pub fn build_environment(templates: &[(&'static str, &'static str)])
    -> (result: Result<TemplateEnvironment, GeneratorError>)
    ensures
        result is Ok <==> all_compile(templates@),
        result matches Ok(env) ==> registered_templates(env) == table_map(templates@),
        result is Err ==> result matches Err(GeneratorError::RenderError(_)),
{
    let mut env = new_environment();
    let mut i: usize = 0;
    while i < templates.len()
        invariant
            i <= templates@.len(),
            registered_templates(env) == table_map(templates@.take(i as int)),
            has_default_template_config(env),
            forall|j: int| 0 <= j < i ==> template_compiles((#[trigger] templates@[j]).0@, templates@[j].1@),
        decreases templates@.len() - i,
    {
        let (name, source) = templates[i];
        match add_template(&mut env, name, source) {
            Ok(()) => {},
            Err(e) => return Err(GeneratorError::RenderError(e)),
        }
        proof {
            assert(templates@.take(i + 1).drop_last() =~= templates@.take(i as int));
        }
        i += 1;
    }
    proof {
        assert(templates@.take(i as int) =~= templates@);
    }
    Ok(env)
}

/// The files of a generated project: the path of each file and the name
/// of the template it is rendered from.
pub open spec fn spec_project_files() -> Seq<(Seq<char>, Seq<char>)> {
    seq![
        ("Cargo.toml"@, "Cargo.toml.j2"@),
        (".cargo/config.toml"@, ".cargo/config.toml.j2"@),
        ("memory.x"@, "memory.x.j2"@),
        ("justfile"@, "justfile.j2"@),
        ("src/main.rs"@, "main.rs.j2"@),
        (".gitignore"@, ".gitignore.j2"@),
        ("build.rs"@, "build.rs.j2"@),
    ]
}

/// Returns the files of a generated project: the path of each file and the
/// name of the template it is rendered from.
pub fn project_files() -> (files: Vec<(&'static str, &'static str)>)
    ensures
        files@.len() == spec_project_files().len(),
        forall|i: int| 0 <= i < files@.len() ==> ((#[trigger] files@[i]).0@, files@[i].1@) == spec_project_files()[i],
{
    let files = vec![
        ("Cargo.toml", "Cargo.toml.j2"),
        (".cargo/config.toml", ".cargo/config.toml.j2"),
        ("memory.x", "memory.x.j2"),
        ("justfile", "justfile.j2"),
        ("src/main.rs", "main.rs.j2"),
        (".gitignore", ".gitignore.j2"),
        ("build.rs", "build.rs.j2"),
    ];
    files
}

} // verus!
