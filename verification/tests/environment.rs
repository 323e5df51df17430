use stm32_generator::errors::GeneratorError;
use stm32_generator::generator::environment::{build_environment, project_files};

#[test]
fn build_environment_registers_every_template() {
    let templates = [("greeting.j2", "Hello"), ("sum.j2", "{{ 1 + 2 }} apples")];
    let env = build_environment(&templates).expect("both templates compile");

    let greeting = env.get_template("greeting.j2").unwrap().render(()).unwrap();
    assert_eq!(greeting, "Hello");
    let sum = env.get_template("sum.j2").unwrap().render(()).unwrap();
    assert_eq!(sum, "3 apples");
    assert!(env.get_template("missing.j2").is_err());
}

#[test]
fn build_environment_keeps_the_later_of_two_templates_with_one_name() {
    let templates = [("page.j2", "first"), ("page.j2", "second")];
    let env = build_environment(&templates).unwrap();

    assert_eq!(env.get_template("page.j2").unwrap().render(()).unwrap(), "second");
}

#[test]
fn build_environment_reports_a_template_that_does_not_compile() {
    let templates = [("ok.j2", "fine"), ("broken.j2", "{% if %}")];
    let result = build_environment(&templates);

    assert!(matches!(result, Err(GeneratorError::RenderError(_))));
}

#[test]
fn build_environment_of_no_templates_is_empty() {
    let env = build_environment(&[]).unwrap();

    assert!(env.get_template("main.rs.j2").is_err());
}

#[test]
fn project_files_pair_each_path_with_its_template() {
    let files = project_files();

    assert_eq!(files.len(), 7);
    assert_eq!(files[0], ("Cargo.toml", "Cargo.toml.j2"));
    assert_eq!(files[1], (".cargo/config.toml", ".cargo/config.toml.j2"));
    assert_eq!(files[4], ("src/main.rs", "main.rs.j2"));
    assert_eq!(files[6], ("build.rs", "build.rs.j2"));
}
