use dockerfile_builder::instruction::{Instruction, EXPOSE, FROM, RUN};
use dockerfile_builder::instruction_builder::ExposeBuilder;
use dockerfile_builder::Dockerfile;

#[test]
fn quick_start() {
    let dockerfile = Dockerfile::default()
        .push(RUN::from("echo $HOME"))
        .push(EXPOSE::from("80/tcp"))
        .push_any("# Just adding a comment");

    let expected = "RUN echo $HOME\nEXPOSE 80/tcp\n# Just adding a comment";
    assert_eq!(dockerfile.to_string(), expected);
}

#[test]
fn build_dockerfile() {
    // Directly from text
    let expose = EXPOSE::from("80/tcp");

    // Through a builder
    let expose_from_builder = ExposeBuilder::builder()
        .port(80)
        .protocol("tcp")
        .build()
        .unwrap();

    assert_eq!(expose, expose_from_builder);

    let dockerfile = Dockerfile::default().push(expose_from_builder);

    assert_eq!(dockerfile.to_string(), "EXPOSE 80/tcp");
}

#[test]
fn append_instructions() {
    let comments = vec!["# syntax=docker/dockerfile:1", "# escape=`"];
    let instruction_vec = vec![
        Instruction::FROM(FROM::from("cargo-chef AS chef")),
        Instruction::RUN(RUN::from("cargo run")),
    ];

    let dockerfile = Dockerfile::default()
        .append_any(comments)
        .append(instruction_vec);

    let expected = "# syntax=docker/dockerfile:1\n# escape=`\nFROM cargo-chef AS chef\nRUN cargo run";
    assert_eq!(dockerfile.to_string(), expected);
}

#[test]
fn empty_dockerfile_renders_nothing() {
    assert_eq!(Dockerfile::default().to_string(), "");
}

#[test]
fn three_pushed_instructions_render_in_order() {
    let dockerfile = Dockerfile::default()
        .push(FROM::from("rust:1.70"))
        .push(RUN::from("cargo build"))
        .push(EXPOSE::from("8080"));
    let text = dockerfile.to_string();
    assert_eq!(text, "FROM rust:1.70\nRUN cargo build\nEXPOSE 8080");
    assert!(!text.ends_with('\n'));
    assert_eq!(text.lines().count(), 3);
}

#[test]
fn into_inner_keeps_order() {
    let instructions = Dockerfile::default()
        .push_any("# first")
        .push(RUN::from("make"))
        .into_inner();
    assert_eq!(instructions.len(), 2);
    assert_eq!(instructions[0], Instruction::ANY("# first".to_string()));
    assert_eq!(instructions[1], Instruction::RUN(RUN::from("make")));
}

#[test]
fn instruction_from_variant_and_raw_line() {
    let i: Instruction = RUN::from("ls").into();
    assert_eq!(i.to_string(), "RUN ls");
    assert_eq!(Instruction::ANY("raw text".to_string()).to_string(), "raw text");
    let copy = i.clone();
    assert_eq!(copy, i);
}
