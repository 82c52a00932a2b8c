use dockerfile_builder::instruction::{Instruction, EXPOSE, FROM, RUN, VOLUME};
use dockerfile_builder::instruction_builder::{
    CmdBuilder, ExposeBuilder, FromBuilder, RunBuilder, RunExecBuilder, ShellBuilder, VolumeBuilder,
};
use dockerfile_builder::Dockerfile;

#[test]
fn builder_with_image_only() {
    let from = FromBuilder::builder().image("cargo-chef").build().unwrap();
    assert_eq!(from.to_string(), "FROM cargo-chef");
}

#[test]
fn builder_with_image_tag_and_name() {
    let from = FromBuilder::builder()
        .image("cargo-chef")
        .tag("latest")
        .name("chef")
        .build()
        .unwrap();
    assert_eq!(from.to_string(), "FROM cargo-chef:latest AS chef");
}

#[test]
fn tag_and_digest_exclude_each_other() {
    let err = FromBuilder::builder()
        .image("cargo-chef")
        .digest("sha256:abc")
        .tag("latest")
        .platform("linux/amd64")
        .build()
        .unwrap_err();
    assert_eq!(err, "Dockerfile image can only have tag OR digest");
}

#[test]
fn two_appended_commands_render_as_two_lines() {
    let run = RunBuilder::builder().command("apt-get update").command("apt-get install -y git").build().unwrap();
    let text = run.to_string();
    assert_eq!(text, "RUN apt-get update && \\\napt-get install -y git");
    assert_eq!(text.lines().count(), 2);
}

#[test]
fn direct_and_built_instructions_agree() {
    let direct = FROM::from("cargo-chef AS chef");
    let built = FromBuilder::builder().image("cargo-chef").name("chef").build().unwrap();
    assert_eq!(direct, built);
    assert_eq!(direct.to_string(), built.to_string());

    let direct = EXPOSE::from("80/tcp");
    let built = ExposeBuilder::builder().port(80).protocol("tcp").build().unwrap();
    assert_eq!(direct.to_string(), built.to_string());
}

#[test]
fn appending_each_matches_setting_the_list() {
    let each = VolumeBuilder::builder().path("/a").path("/b").path("/c").build().unwrap();
    let bulk = VolumeBuilder::builder().paths(vec!["/a", "/b", "/c"]).build().unwrap();
    assert_eq!(each, bulk);
    assert_eq!(each, VOLUME::from("/a /b /c"));

    let each = CmdBuilder::builder().command("ls").param("-l").param("-a").build().unwrap();
    let bulk = CmdBuilder::builder().command("ls").params(vec!["-l", "-a"]).build().unwrap();
    assert_eq!(each.to_string(), bulk.to_string());

    let each = RunBuilder::builder().command("x").build().unwrap();
    let bulk = RunBuilder::builder().commands(vec!["x"]).build().unwrap();
    assert_eq!(each, bulk);
}

#[test]
fn appending_nothing_matches_an_empty_list_where_unset_params_format_alike() {
    let none = RunExecBuilder::builder().executable("sh").build().unwrap();
    let empty = RunExecBuilder::builder().executable("sh").params(Vec::new()).build().unwrap();
    assert_eq!(none, empty);
}

#[test]
fn appending_nothing_differs_from_an_empty_list_elsewhere() {
    let none = ShellBuilder::builder().executable("sh").build().unwrap();
    let empty = ShellBuilder::builder().executable("sh").params(Vec::new()).build().unwrap();
    assert_eq!(none.to_string(), r#"SHELL ["sh"]"#);
    assert_eq!(empty.to_string(), r#"SHELL ["sh", ""]"#);
    assert!(RunBuilder::builder().build().is_err());
    assert_eq!(RunBuilder::builder().commands(Vec::new()).build().unwrap().to_string(), "RUN ");
}

#[test]
fn document_keeps_order_with_single_newlines() {
    let dockerfile = Dockerfile::default()
        .push_any("# one")
        .append(vec![Instruction::RUN(RUN::from("two")), Instruction::ANY("three".to_string())])
        .append_any(vec!["four", "five"])
        .push(RUN::from("six"));
    assert_eq!(dockerfile.to_string(), "# one\nRUN two\nthree\nfour\nfive\nRUN six");
}

#[test]
fn single_instruction_document_has_no_newline() {
    let dockerfile = Dockerfile::default().push(RUN::from("x"));
    assert_eq!(dockerfile.to_string(), "RUN x");
}
