use dockerfile_builder::instruction::{Instruction, CMD, ENV, EXPOSE, FROM, RUN, SHELL};
use dockerfile_builder::instruction_builder::{
    AddBuilder, ArgBuilder, CmdBuilder, CmdExecBuilder, CopyBuilder, EntrypointBuilder,
    EntrypointExecBuilder, EnvBuilder, ExposeBuilder, FromBuilder, HealthcheckBuilder, LabelBuilder,
    OnbuildBuilder, RunBuilder, RunExecBuilder, ShellBuilder, UserBuilder,
};

#[test]
fn env_and_label_join_key_and_value() {
    let env = EnvBuilder::builder().key("foo").value("bar").build().unwrap();
    assert_eq!(env.to_string(), "ENV foo=bar");
    let label = LabelBuilder::builder().key("foo").value("bar").build().unwrap();
    assert_eq!(label.to_string(), "LABEL foo=bar");
}

#[test]
fn run_shell_form_joins_commands_with_continuation() {
    let run = RunBuilder::builder()
        .command("source $HOME/.bashrc")
        .command("echo $HOME")
        .build()
        .unwrap();
    assert_eq!(run.to_string(), "RUN source $HOME/.bashrc && \\\necho $HOME");

    let single = RunBuilder::builder().command("make").build().unwrap();
    assert_eq!(single.to_string(), "RUN make");
}

#[test]
fn run_exec_form() {
    let run = RunExecBuilder::builder()
        .executable("mybin.exe")
        .param("-f")
        .param("-c")
        .build()
        .unwrap();
    assert_eq!(run.to_string(), r#"RUN ["mybin.exe", "-f", "-c"]"#);

    let bare = RunExecBuilder::builder().executable("mybin.exe").build().unwrap();
    assert_eq!(bare.to_string(), r#"RUN ["mybin.exe", ""]"#);
}

#[test]
fn cmd_shell_form() {
    let cmd = CmdBuilder::builder()
        .command(r#"echo "this is a test""#)
        .param("| wc")
        .param("-l")
        .build()
        .unwrap();
    assert_eq!(cmd.to_string(), r#"CMD echo "this is a test" | wc -l"#);
}

#[test]
fn cmd_exec_form() {
    let cmd = CmdExecBuilder::builder()
        .executable("/usr/bin/wc")
        .param("--help")
        .build()
        .unwrap();
    assert_eq!(cmd.to_string(), r#"CMD ["/usr/bin/wc", "--help"]"#);

    let defaults = CmdExecBuilder::builder().param("-l").param("8000").build().unwrap();
    assert_eq!(defaults.to_string(), r#"CMD ["-l", "8000"]"#);
}

#[test]
fn cmd_exec_form_cannot_be_empty() {
    let cmd = CmdExecBuilder::builder().build();
    assert_eq!(cmd.unwrap_err(), "CMD cannot be empty");
}

#[test]
fn entrypoint_forms() {
    let shell = EntrypointBuilder::builder()
        .command("some command")
        .param("-f")
        .param("-c")
        .build()
        .unwrap();
    assert_eq!(shell.to_string(), "ENTRYPOINT some command -f -c");

    let bare = EntrypointBuilder::builder().command("top").build().unwrap();
    assert_eq!(bare.to_string(), "ENTRYPOINT top");

    let exec = EntrypointExecBuilder::builder()
        .executable("/usr/sbin/apache2ctl")
        .param("-D")
        .param("FOREGROUND")
        .build()
        .unwrap();
    assert_eq!(exec.to_string(), r#"ENTRYPOINT ["/usr/sbin/apache2ctl", "-D", "FOREGROUND"]"#);
}

#[test]
fn shell_form_with_and_without_params() {
    let shell = ShellBuilder::builder()
        .executable("cmd")
        .param("/S")
        .param("/C")
        .build()
        .unwrap();
    assert_eq!(shell.to_string(), r#"SHELL ["cmd", "/S", "/C"]"#);

    let bare = ShellBuilder::builder().executable("bash").build().unwrap();
    assert_eq!(bare, SHELL::from(r#"["bash"]"#));
}

#[test]
fn add_and_copy_with_every_flag() {
    let add = AddBuilder::builder()
        .chown("myuser:mygroup")
        .chmod(655)
        .src("hom*")
        .dest("/mydir/")
        .build()
        .unwrap();
    assert_eq!(add.to_string(), "ADD --chown=myuser:mygroup --chmod=655 hom* /mydir/");

    let copy = CopyBuilder::builder()
        .chown("55:mygroup")
        .chmod(644)
        .src("files*")
        .dest("/somedir/")
        .build()
        .unwrap();
    assert_eq!(copy.to_string(), "COPY --chown=55:mygroup --chmod=644 files* /somedir/");

    let staged = CopyBuilder::builder()
        .link(false)
        .from("build")
        .src("/app")
        .dest("/app")
        .build()
        .unwrap();
    assert_eq!(staged.to_string(), "COPY --from=build /app /app");
}

#[test]
fn expose_numbers_at_the_edges() {
    let low = ExposeBuilder::builder().port(0).build().unwrap();
    assert_eq!(low.to_string(), "EXPOSE 0");
    let high = ExposeBuilder::builder().port(65535).protocol("udp").build().unwrap();
    assert_eq!(high.to_string(), "EXPOSE 65535/udp");
}

#[test]
fn healthcheck_negative_and_extreme_numbers() {
    let check = HealthcheckBuilder::builder()
        .cmd(CMD::from("true"))
        .retries(-3)
        .timeout(i32::MIN)
        .build()
        .unwrap();
    assert_eq!(check.to_string(), "HEALTHCHECK --timeout=-2147483648 --retries=-3 CMD true");
}

#[test]
fn setters_replace_earlier_values() {
    let user = UserBuilder::builder().user("a").user("b").build().unwrap();
    assert_eq!(user.to_string(), "USER b");

    let run = RunBuilder::builder()
        .command("first")
        .commands(vec!["second", "third"])
        .build()
        .unwrap();
    assert_eq!(run.to_string(), "RUN second && \\\nthird");

    let run = RunBuilder::builder()
        .commands(vec!["second"])
        .command("third")
        .build()
        .unwrap();
    assert_eq!(run.to_string(), "RUN second && \\\nthird");
}

#[test]
fn required_fields_are_named() {
    assert_eq!(EnvBuilder::builder().value("v").build().unwrap_err(), "key is required for EnvBuilder");
    assert_eq!(EnvBuilder::builder().key("k").build().unwrap_err(), "value is required for EnvBuilder");
    assert_eq!(AddBuilder::builder().build().unwrap_err(), "src is required for AddBuilder");
    assert_eq!(AddBuilder::builder().src("a").build().unwrap_err(), "dest is required for AddBuilder");
    assert_eq!(RunBuilder::builder().build().unwrap_err(), "commands is required for RunBuilder");
    assert_eq!(ExposeBuilder::builder().protocol("tcp").build().unwrap_err(), "port is required for ExposeBuilder");
    assert_eq!(OnbuildBuilder::builder().build().unwrap_err(), "instruction is required for OnbuildBuilder");
    assert_eq!(HealthcheckBuilder::builder().retries(3).build().unwrap_err(), "cmd is required for HealthcheckBuilder");
    assert_eq!(ArgBuilder::builder().value("x").build().unwrap_err(), "name is required for ArgBuilder");
}

#[test]
fn check_build_hands_back_the_fields() {
    let fields = FromBuilder::builder().image("alpine").tag("3").check_build().unwrap();
    assert_eq!(fields.image, "alpine");
    assert_eq!(fields.tag, Some("3".to_string()));
    assert_eq!(fields.digest, None);
    assert_eq!(fields.value().unwrap(), "alpine:3");
}

#[test]
fn value_formats_without_keyword() {
    let fields = FromBuilder::builder().image("a").tag("t").digest("d").check_build().unwrap();
    assert_eq!(fields.value().unwrap_err(), "Dockerfile image can only have tag OR digest");
    let env = EnvBuilder::builder().key("k").value("v").build().unwrap();
    assert_eq!(env, ENV::from("k=v"));
}

#[test]
fn onbuild_wraps_other_instructions() {
    let onbuild = OnbuildBuilder::builder()
        .instruction(Instruction::RUN(RUN::from("make")))
        .build()
        .unwrap();
    assert_eq!(onbuild.to_string(), "ONBUILD RUN make");
    let raw = OnbuildBuilder::builder()
        .instruction(Instruction::ANY("RUN raw".to_string()))
        .build()
        .unwrap();
    assert_eq!(raw.to_string(), "ONBUILD RUN raw");
    let expose = OnbuildBuilder::builder()
        .instruction(Instruction::EXPOSE(EXPOSE::from("80")))
        .build()
        .unwrap();
    assert_eq!(expose.to_string(), "ONBUILD EXPOSE 80");
    let from = OnbuildBuilder::builder()
        .instruction(Instruction::FROM(FROM::from("x")))
        .build();
    assert!(from.is_err());
}
