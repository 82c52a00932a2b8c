use dockerfile_builder::instruction::{Instruction, ADD, CMD, FROM, ONBUILD};
use dockerfile_builder::instruction_builder::{
    AddBuilder, AddGitBuilder, AddHttpBuilder, ArgBuilder, CopyBuilder, ExposeBuilder, FromBuilder,
    HealthcheckBuilder, OnbuildBuilder, StopsignalBuilder, UserBuilder, VolumeBuilder, WorkdirBuilder,
};

#[test]
fn from() {
    let from = FromBuilder::builder().image("cargo-chef").build().unwrap();
    assert_eq!(from.to_string(), "FROM cargo-chef");

    let from = FromBuilder::builder()
        .image("cargo-chef")
        .platform("linux/arm64")
        .build()
        .unwrap();
    assert_eq!(from.to_string(), "FROM --platform=linux/arm64 cargo-chef");

    let from = FromBuilder::builder()
        .image("cargo-chef")
        .name("chef")
        .tag("latest")
        .build()
        .unwrap();
    assert_eq!(from.to_string(), "FROM cargo-chef:latest AS chef");

    let from = FromBuilder::builder()
        .image("cargo-chef")
        .name("chef")
        .digest("sha256")
        .build()
        .unwrap();
    assert_eq!(from.to_string(), "FROM cargo-chef@sha256 AS chef");
}

#[test]
fn from_err() {
    let from = FromBuilder::builder().build();
    match from {
        Ok(_) => panic!("Required field is not set. Expect test to fail"),
        Err(e) => assert_eq!(e.to_string(), "image is required for FromBuilder".to_string(),),
    }

    let from = FromBuilder::builder()
        .image("cargo-chef")
        .tag("t")
        .digest("d")
        .build();
    match from {
        Ok(_) => panic!("Both tag and digest are set. Expect test to fail"),
        Err(e) => assert_eq!(
            e.to_string(),
            "Dockerfile image can only have tag OR digest".to_string(),
        ),
    }
}

#[test]
fn expose() {
    let expose = ExposeBuilder::builder().port(80).build().unwrap();
    assert_eq!(expose.to_string(), "EXPOSE 80");
}

#[test]
fn add() {
    let add = AddBuilder::builder()
        .src("hom*")
        .dest("/mydir/")
        .build()
        .unwrap();
    assert_eq!(add.to_string(), "ADD hom* /mydir/");
}

#[test]
fn add_http() {
    let add = AddHttpBuilder::builder()
        .checksum("sha256::123")
        .src("http://example.com/foobar")
        .dest("/")
        .build()
        .unwrap();
    assert_eq!(add.to_string(), "ADD --checksum=sha256::123 http://example.com/foobar /");
}

#[test]
fn add_git() {
    let add = AddGitBuilder::builder()
        .keep_git_dir(true)
        .git_ref("https://github.com/moby/buildkit.git#v0.10.1")
        .dir("/buildkit")
        .build()
        .unwrap();
    assert_eq!(
        add.to_string(),
        "ADD --keep-git-dir=true https://github.com/moby/buildkit.git#v0.10.1 /buildkit"
    );
}

#[test]
fn copy() {
    let copy = CopyBuilder::builder()
        .link(true)
        .src("foo/")
        .dest("bar/")
        .build()
        .unwrap();
    assert_eq!(copy.to_string(), "COPY --link foo/ bar/");
}

#[test]
fn volume() {
    let volume = VolumeBuilder::builder()
        .path("/myvol1")
        .path("/myvol2")
        .build()
        .unwrap();
    assert_eq!(volume.to_string(), "VOLUME /myvol1 /myvol2");
}

#[test]
fn user() {
    let user = UserBuilder::builder().user("myuser").build().unwrap();
    assert_eq!(user.to_string(), "USER myuser");

    let user = UserBuilder::builder()
        .user("myuser")
        .group("mygroup")
        .build()
        .unwrap();
    assert_eq!(user.to_string(), "USER myuser:mygroup");
}

#[test]
fn workdir() {
    let workdir = WorkdirBuilder::builder()
        .path("/path/to/workdir")
        .build()
        .unwrap();
    assert_eq!(workdir.to_string(), "WORKDIR /path/to/workdir");
}

#[test]
fn arg() {
    let arg = ArgBuilder::builder().name("user1").build().unwrap();
    assert_eq!(arg.to_string(), "ARG user1");

    let arg = ArgBuilder::builder()
        .name("user1")
        .value("someuser")
        .build()
        .unwrap();
    assert_eq!(arg.to_string(), "ARG user1=someuser");
}

#[test]
fn onbuild() {
    let onbuild = OnbuildBuilder::builder()
        .instruction(Instruction::ADD(ADD::from(". /app/src")))
        .build()
        .unwrap();
    assert_eq!(onbuild.to_string(), "ONBUILD ADD . /app/src");
}

#[test]
fn onbuild_err() {
    let onbuild = OnbuildBuilder::builder()
        .instruction(Instruction::ONBUILD(ONBUILD::from("RUN somecommand")))
        .build();
    match onbuild {
        Ok(_) => panic!("Chaining Onbuild instructions. Expect test to fail"),
        Err(e) => assert_eq!(
            e.to_string(),
            "Chaining ONBUILD instructions using ONBUILD ONBUILD isn’t allowed".to_string(),
        ),
    }

    let onbuild = OnbuildBuilder::builder()
        .instruction(Instruction::FROM(FROM::from("someimage")))
        .build();
    match onbuild {
        Ok(_) => {
            panic!("ONBUILD instruction may not trigger FROM instruction. Expect test to fail")
        }
        Err(e) => assert_eq!(
            e.to_string(),
            "ONBUILD instruction may not trigger FROM instruction".to_string(),
        ),
    }
}

#[test]
fn stopsignal() {
    let stopsignal = StopsignalBuilder::builder()
        .signal("SIGKILL")
        .build()
        .unwrap();
    assert_eq!(stopsignal.to_string(), "STOPSIGNAL SIGKILL");
}

#[test]
fn healthcheck() {
    let healthcheck = HealthcheckBuilder::builder()
        .cmd(CMD::from("curl -f http://localhost/"))
        .build()
        .unwrap();
    assert_eq!(healthcheck.to_string(), "HEALTHCHECK CMD curl -f http://localhost/");

    let healthcheck = HealthcheckBuilder::builder()
        .cmd(CMD::from("curl -f http://localhost/"))
        .interval(15)
        .timeout(200)
        .start_period(5)
        .retries(5)
        .build()
        .unwrap();
    assert_eq!(
        healthcheck.to_string(),
        "HEALTHCHECK --interal=15 --timeout=200 --start-period=5 --retries=5 CMD curl -f http://localhost/"
    );
}
