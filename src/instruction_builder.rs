//! Typed builders for instructions.
//!
//! Each instruction has a builder of the same shape: `XBuilder::builder()` gives an
//! accumulator (`XBuilderInner`) in which every field starts unset; one setter per field
//! stores a value, replacing the previous one, and returns the accumulator for chaining; a list
//! field also has a setter that appends one element. `build` then checks that every required
//! field is set, naming the first one that is not, formats the fields with `XBuilder::value`,
//! which may reject a combination of them, and wraps the text in the instruction.

use vstd::prelude::*;
use vstd::string::*;

use crate::instruction::{
    keyword_line, Instruction, Keyword, ADD, ARG, CMD, COPY, ENTRYPOINT, ENV, EXPOSE, FROM,
    HEALTHCHECK, LABEL, ONBUILD, RUN, SHELL, STOPSIGNAL, USER, VOLUME, WORKDIR,
};
use crate::text::{
    affix, appended, copy_list, copy_opt, copy_opt_list, decimal, join, join_opt, joined, opt_bool_text,
    opt_decimal, opt_signed_decimal, opt_text, opt_texts, or_empty, push_affixed, push_affixed_bool,
    push_affixed_decimal, push_affixed_signed_decimal, push_decimal, str_texts, texts, to_strings,
};

verus! {

/// What a formatting or building step gave, as text: the formatted value or the error message.
pub open spec fn outcome<T: View<V = Seq<char>>>(r: Result<T, String>) -> Result<Seq<char>, Seq<char>> {
    match r {
        Ok(v) => Ok(v@),
        Err(e) => Err(e@),
    }
}

/// A rejection with the message `m`.
pub open spec fn rejected(m: Seq<char>) -> Result<Seq<char>, Seq<char>> {
    Err(m)
}

/// The value of `FROM [--platform=<platform>] <image>[:<tag>|@<digest>] [AS <name>]`; a tag and a digest
/// exclude each other.
pub open spec fn from_value(
    image: Seq<char>,
    name: Option<Seq<char>>,
    tag: Option<Seq<char>>,
    digest: Option<Seq<char>>,
    platform: Option<Seq<char>>,
) -> Result<Seq<char>, Seq<char>> {
    if tag is Some && digest is Some {
        Err("Dockerfile image can only have tag OR digest"@)
    } else {
        Ok(affix(platform, "--platform="@, " "@) + image + (if tag is Some {
            affix(tag, ":"@, ""@)
        } else {
            affix(digest, "@"@, ""@)
        }) + affix(name, " AS "@, ""@))
    }
}

/// Fields of a [`FROM`] instruction, every required one set.
pub struct FromBuilder {
    pub image: String,
    pub name: Option<String>,
    pub tag: Option<String>,
    pub digest: Option<String>,
    pub platform: Option<String>,
}

impl FromBuilder {
    /// An accumulator with every field unset.
    pub fn builder() -> (r: FromBuilderInner)
        ensures
            r.image is None,
            r.name is None,
            r.tag is None,
            r.digest is None,
            r.platform is None,
    {
        FromBuilderInner { image: None, name: None, tag: None, digest: None, platform: None }
    }

    /// What [`Self::value`] gives, as text.
    pub open spec fn spec_value(&self) -> Result<Seq<char>, Seq<char>> {
        from_value(
            self.image@,
            opt_text(self.name),
            opt_text(self.tag),
            opt_text(self.digest),
            opt_text(self.platform),
        )
    }

    /// Formats the fields as the text that follows `FROM`.
    pub fn value(&self) -> (r: Result<String, String>)
        ensures
            outcome(r) == self.spec_value(),
    {
        if self.tag.is_some() && self.digest.is_some() {
            return Err(String::from_str("Dockerfile image can only have tag OR digest"));
        }
        let mut r = String::new();
        push_affixed(&mut r, &self.platform, "--platform=", " ");
        r.append(self.image.as_str());
        if self.tag.is_some() {
            push_affixed(&mut r, &self.tag, ":", "");
        } else {
            push_affixed(&mut r, &self.digest, "@", "");
        }
        push_affixed(&mut r, &self.name, " AS ", "");
        assert(r@ =~= self.spec_value()->Ok_0);
        Ok(r)
    }
}

/// Accumulates the fields of a [`FromBuilder`]; each is unset until its setter is called.
pub struct FromBuilderInner {
    pub image: Option<String>,
    pub name: Option<String>,
    pub tag: Option<String>,
    pub digest: Option<String>,
    pub platform: Option<String>,
}

impl FromBuilderInner {
    /// Sets `image`.
    pub fn image(&mut self, image: &str) -> (r: &mut Self)
        ensures
            opt_text(r.image) == Some(image@),
            r.name == old(self).name,
            r.tag == old(self).tag,
            r.digest == old(self).digest,
            r.platform == old(self).platform,
            *final(self) == *final(r),
    {
        self.image = Some(String::from_str(image));
        self
    }

    /// Sets `name`.
    pub fn name(&mut self, name: &str) -> (r: &mut Self)
        ensures
            opt_text(r.name) == Some(name@),
            r.image == old(self).image,
            r.tag == old(self).tag,
            r.digest == old(self).digest,
            r.platform == old(self).platform,
            *final(self) == *final(r),
    {
        self.name = Some(String::from_str(name));
        self
    }

    /// Sets `tag`.
    pub fn tag(&mut self, tag: &str) -> (r: &mut Self)
        ensures
            opt_text(r.tag) == Some(tag@),
            r.image == old(self).image,
            r.name == old(self).name,
            r.digest == old(self).digest,
            r.platform == old(self).platform,
            *final(self) == *final(r),
    {
        self.tag = Some(String::from_str(tag));
        self
    }

    /// Sets `digest`.
    pub fn digest(&mut self, digest: &str) -> (r: &mut Self)
        ensures
            opt_text(r.digest) == Some(digest@),
            r.image == old(self).image,
            r.name == old(self).name,
            r.tag == old(self).tag,
            r.platform == old(self).platform,
            *final(self) == *final(r),
    {
        self.digest = Some(String::from_str(digest));
        self
    }

    /// Sets `platform`.
    pub fn platform(&mut self, platform: &str) -> (r: &mut Self)
        ensures
            opt_text(r.platform) == Some(platform@),
            r.image == old(self).image,
            r.name == old(self).name,
            r.tag == old(self).tag,
            r.digest == old(self).digest,
            *final(self) == *final(r),
    {
        self.platform = Some(String::from_str(platform));
        self
    }

    /// The message naming the first unset required field; none when all are set.
    pub open spec fn missing(&self) -> Option<Seq<char>> {
        if self.image is None {
            Some("image is required for FromBuilder"@)
        } else {
            None
        }
    }

    /// What [`Self::build`] gives, as text: the missing field, or the formatted value.
    pub open spec fn spec_build(&self) -> Result<Seq<char>, Seq<char>> {
        match self.missing() {
            Some(m) => Err(m),
            None => from_value(
                self.image->0@,
                opt_text(self.name),
                opt_text(self.tag),
                opt_text(self.digest),
                opt_text(self.platform),
            ),
        }
    }

    /// The checked fields, or the message naming the first unset required one.
    pub fn check_build(&mut self) -> (r: Result<FromBuilder, String>)
        ensures
            *final(self) == *old(self),
            r is Ok <==> old(self).missing() is None,
            r matches Err(e) ==> Some(e@) == old(self).missing(),
            r matches Ok(b) ==> {
                &&& b.image@ == old(self).image->0@
                &&& b.name == old(self).name
                &&& b.tag == old(self).tag
                &&& b.digest == old(self).digest
                &&& b.platform == old(self).platform
            },
    {
        let image = match &self.image {
            Some(v) => v.clone(),
            None => {
                return Err(String::from_str("image is required for FromBuilder"));
            },
        };
        Ok(
            FromBuilder {
                image,
                name: copy_opt(&self.name),
                tag: copy_opt(&self.tag),
                digest: copy_opt(&self.digest),
                platform: copy_opt(&self.platform),
            },
        )
    }

    /// Checks the fields and formats them into a `FROM` instruction.
    pub fn build(&mut self) -> (r: Result<FROM, String>)
        ensures
            *final(self) == *old(self),
            outcome(r) == old(self).spec_build(),
            old(self).image is None ==> outcome(r) == rejected(
                "image is required for FromBuilder"@,
            ),
            old(self).image is Some && old(self).tag is Some && old(self).digest is Some ==> outcome(r)
                == rejected("Dockerfile image can only have tag OR digest"@),
    {
        match self.check_build() {
            Err(e) => Err(e),
            Ok(b) => match b.value() {
                Err(e) => Err(e),
                Ok(v) => Ok(FROM { value: v }),
            },
        }
    }
}

/// The value of `ENV <key>=<value>`.
pub open spec fn env_value(
    key: Seq<char>,
    value: Seq<char>,
) -> Result<Seq<char>, Seq<char>> {
    Ok(key + "="@ + value)
}

/// Fields of a [`ENV`] instruction, every required one set.
pub struct EnvBuilder {
    pub key: String,
    pub value: String,
}

impl EnvBuilder {
    /// An accumulator with every field unset.
    pub fn builder() -> (r: EnvBuilderInner)
        ensures
            r.key is None,
            r.value is None,
    {
        EnvBuilderInner { key: None, value: None }
    }

    /// What [`Self::value`] gives, as text.
    pub open spec fn spec_value(&self) -> Result<Seq<char>, Seq<char>> {
        env_value(
            self.key@,
            self.value@,
        )
    }

    /// Formats the fields as the text that follows `ENV`.
    pub fn value(&self) -> (r: Result<String, String>)
        ensures
            outcome(r) == self.spec_value(),
    {
        let mut r = String::new();
        r.append(self.key.as_str());
        r.append("=");
        r.append(self.value.as_str());
        assert(r@ =~= self.spec_value()->Ok_0);
        Ok(r)
    }
}

/// Accumulates the fields of a [`EnvBuilder`]; each is unset until its setter is called.
pub struct EnvBuilderInner {
    pub key: Option<String>,
    pub value: Option<String>,
}

impl EnvBuilderInner {
    /// Sets `key`.
    pub fn key(&mut self, key: &str) -> (r: &mut Self)
        ensures
            opt_text(r.key) == Some(key@),
            r.value == old(self).value,
            *final(self) == *final(r),
    {
        self.key = Some(String::from_str(key));
        self
    }

    /// Sets `value`.
    pub fn value(&mut self, value: &str) -> (r: &mut Self)
        ensures
            opt_text(r.value) == Some(value@),
            r.key == old(self).key,
            *final(self) == *final(r),
    {
        self.value = Some(String::from_str(value));
        self
    }

    /// The message naming the first unset required field; none when all are set.
    pub open spec fn missing(&self) -> Option<Seq<char>> {
        if self.key is None {
            Some("key is required for EnvBuilder"@)
        } else if self.value is None {
            Some("value is required for EnvBuilder"@)
        } else {
            None
        }
    }

    /// What [`Self::build`] gives, as text: the missing field, or the formatted value.
    pub open spec fn spec_build(&self) -> Result<Seq<char>, Seq<char>> {
        match self.missing() {
            Some(m) => Err(m),
            None => env_value(
                self.key->0@,
                self.value->0@,
            ),
        }
    }

    /// The checked fields, or the message naming the first unset required one.
    pub fn check_build(&mut self) -> (r: Result<EnvBuilder, String>)
        ensures
            *final(self) == *old(self),
            r is Ok <==> old(self).missing() is None,
            r matches Err(e) ==> Some(e@) == old(self).missing(),
            r matches Ok(b) ==> {
                &&& b.key@ == old(self).key->0@
                &&& b.value@ == old(self).value->0@
            },
    {
        let key = match &self.key {
            Some(v) => v.clone(),
            None => {
                return Err(String::from_str("key is required for EnvBuilder"));
            },
        };
        let value = match &self.value {
            Some(v) => v.clone(),
            None => {
                return Err(String::from_str("value is required for EnvBuilder"));
            },
        };
        Ok(EnvBuilder { key, value })
    }

    /// Checks the fields and formats them into a `ENV` instruction.
    pub fn build(&mut self) -> (r: Result<ENV, String>)
        ensures
            *final(self) == *old(self),
            outcome(r) == old(self).spec_build(),
            old(self).key is None ==> outcome(r) == rejected(
                "key is required for EnvBuilder"@,
            ),
            old(self).key is Some && old(self).value is None ==> outcome(r) == rejected(
                "value is required for EnvBuilder"@,
            ),
    {
        match self.check_build() {
            Err(e) => Err(e),
            Ok(b) => match b.value() {
                Err(e) => Err(e),
                Ok(v) => Ok(ENV { value: v }),
            },
        }
    }
}

/// The value of the shell form of `RUN`: the commands, joined by `&&` and a line continuation.
pub open spec fn run_value(
    commands: Seq<Seq<char>>,
) -> Result<Seq<char>, Seq<char>> {
    Ok(joined(commands, " && \\\n"@))
}

/// Fields of a [`RUN`] instruction, every required one set.
pub struct RunBuilder {
    pub commands: Vec<String>,
}

impl RunBuilder {
    /// An accumulator with every field unset.
    pub fn builder() -> (r: RunBuilderInner)
        ensures
            r.commands is None,
    {
        RunBuilderInner { commands: None }
    }

    /// What [`Self::value`] gives, as text.
    pub open spec fn spec_value(&self) -> Result<Seq<char>, Seq<char>> {
        run_value(
            texts(self.commands@),
        )
    }

    /// Formats the fields as the text that follows `RUN`.
    pub fn value(&self) -> (r: Result<String, String>)
        ensures
            outcome(r) == self.spec_value(),
    {
        let r = join(&self.commands, " && \\\n");
        assert(r@ =~= self.spec_value()->Ok_0);
        Ok(r)
    }
}

/// Accumulates the fields of a [`RunBuilder`]; each is unset until its setter is called.
pub struct RunBuilderInner {
    pub commands: Option<Vec<String>>,
}

impl RunBuilderInner {
    /// Sets `commands` to the whole list, replacing what it held.
    pub fn commands(&mut self, commands: Vec<&str>) -> (r: &mut Self)
        ensures
            opt_texts(r.commands) == Some(str_texts(commands@)),
            *final(self) == *final(r),
    {
        self.commands = Some(to_strings(&commands));
        self
    }

    /// Appends one element to `commands`, starting the list if it is unset.
    pub fn command(&mut self, command: &str) -> (r: &mut Self)
        ensures
            opt_texts(r.commands) == appended(opt_texts(old(self).commands), command@),
            *final(self) == *final(r),
    {
        let item = String::from_str(command);
        let mut list = match self.commands.take() {
            Some(list) => list,
            None => Vec::new(),
        };
        let ghost before = list@;
        list.push(item);
        assert(texts(list@) =~= texts(before).push(command@));
        self.commands = Some(list);
        self
    }

    /// The message naming the first unset required field; none when all are set.
    pub open spec fn missing(&self) -> Option<Seq<char>> {
        if self.commands is None {
            Some("commands is required for RunBuilder"@)
        } else {
            None
        }
    }

    /// What [`Self::build`] gives, as text: the missing field, or the formatted value.
    pub open spec fn spec_build(&self) -> Result<Seq<char>, Seq<char>> {
        match self.missing() {
            Some(m) => Err(m),
            None => run_value(
                texts(self.commands->0@),
            ),
        }
    }

    /// The checked fields, or the message naming the first unset required one.
    pub fn check_build(&mut self) -> (r: Result<RunBuilder, String>)
        ensures
            *final(self) == *old(self),
            r is Ok <==> old(self).missing() is None,
            r matches Err(e) ==> Some(e@) == old(self).missing(),
            r matches Ok(b) ==> {
                &&& texts(b.commands@) == texts(old(self).commands->0@)
            },
    {
        let commands = match &self.commands {
            Some(v) => copy_list(v),
            None => {
                return Err(String::from_str("commands is required for RunBuilder"));
            },
        };
        Ok(RunBuilder { commands })
    }

    /// Checks the fields and formats them into a `RUN` instruction.
    pub fn build(&mut self) -> (r: Result<RUN, String>)
        ensures
            *final(self) == *old(self),
            outcome(r) == old(self).spec_build(),
            old(self).commands is None ==> outcome(r) == rejected(
                "commands is required for RunBuilder"@,
            ),
    {
        match self.check_build() {
            Err(e) => Err(e),
            Ok(b) => match b.value() {
                Err(e) => Err(e),
                Ok(v) => Ok(RUN { value: v }),
            },
        }
    }
}

/// The value of the exec form of `RUN`: `RUN ["<executable>", "<param>", ...]`.
pub open spec fn run_exec_value(
    executable: Seq<char>,
    params: Option<Seq<Seq<char>>>,
) -> Result<Seq<char>, Seq<char>> {
    Ok("[\""@ + executable + "\", \""@ + joined(or_empty(params), "\", \""@) + "\"]"@)
}

/// Fields of a [`RUN`] instruction, every required one set.
pub struct RunExecBuilder {
    pub executable: String,
    pub params: Option<Vec<String>>,
}

impl RunExecBuilder {
    /// An accumulator with every field unset.
    pub fn builder() -> (r: RunExecBuilderInner)
        ensures
            r.executable is None,
            r.params is None,
    {
        RunExecBuilderInner { executable: None, params: None }
    }

    /// What [`Self::value`] gives, as text.
    pub open spec fn spec_value(&self) -> Result<Seq<char>, Seq<char>> {
        run_exec_value(
            self.executable@,
            opt_texts(self.params),
        )
    }

    /// Formats the fields as the text that follows `RUN`.
    pub fn value(&self) -> (r: Result<String, String>)
        ensures
            outcome(r) == self.spec_value(),
    {
        let mut r = String::new();
        r.append("[\"");
        r.append(self.executable.as_str());
        r.append("\", \"");
        let params = join_opt(&self.params, "\", \"");
        r.append(params.as_str());
        r.append("\"]");
        assert(r@ =~= self.spec_value()->Ok_0);
        Ok(r)
    }
}

/// Accumulates the fields of a [`RunExecBuilder`]; each is unset until its setter is called.
pub struct RunExecBuilderInner {
    pub executable: Option<String>,
    pub params: Option<Vec<String>>,
}

impl RunExecBuilderInner {
    /// Sets `executable`.
    pub fn executable(&mut self, executable: &str) -> (r: &mut Self)
        ensures
            opt_text(r.executable) == Some(executable@),
            r.params == old(self).params,
            *final(self) == *final(r),
    {
        self.executable = Some(String::from_str(executable));
        self
    }

    /// Sets `params` to the whole list, replacing what it held.
    pub fn params(&mut self, params: Vec<&str>) -> (r: &mut Self)
        ensures
            opt_texts(r.params) == Some(str_texts(params@)),
            r.executable == old(self).executable,
            *final(self) == *final(r),
    {
        self.params = Some(to_strings(&params));
        self
    }

    /// Appends one element to `params`, starting the list if it is unset.
    pub fn param(&mut self, param: &str) -> (r: &mut Self)
        ensures
            opt_texts(r.params) == appended(opt_texts(old(self).params), param@),
            r.executable == old(self).executable,
            *final(self) == *final(r),
    {
        let item = String::from_str(param);
        let mut list = match self.params.take() {
            Some(list) => list,
            None => Vec::new(),
        };
        let ghost before = list@;
        list.push(item);
        assert(texts(list@) =~= texts(before).push(param@));
        self.params = Some(list);
        self
    }

    /// The message naming the first unset required field; none when all are set.
    pub open spec fn missing(&self) -> Option<Seq<char>> {
        if self.executable is None {
            Some("executable is required for RunExecBuilder"@)
        } else {
            None
        }
    }

    /// What [`Self::build`] gives, as text: the missing field, or the formatted value.
    pub open spec fn spec_build(&self) -> Result<Seq<char>, Seq<char>> {
        match self.missing() {
            Some(m) => Err(m),
            None => run_exec_value(
                self.executable->0@,
                opt_texts(self.params),
            ),
        }
    }

    /// The checked fields, or the message naming the first unset required one.
    pub fn check_build(&mut self) -> (r: Result<RunExecBuilder, String>)
        ensures
            *final(self) == *old(self),
            r is Ok <==> old(self).missing() is None,
            r matches Err(e) ==> Some(e@) == old(self).missing(),
            r matches Ok(b) ==> {
                &&& b.executable@ == old(self).executable->0@
                &&& opt_texts(b.params) == opt_texts(old(self).params)
            },
    {
        let executable = match &self.executable {
            Some(v) => v.clone(),
            None => {
                return Err(String::from_str("executable is required for RunExecBuilder"));
            },
        };
        Ok(RunExecBuilder { executable, params: copy_opt_list(&self.params) })
    }

    /// Checks the fields and formats them into a `RUN` instruction.
    pub fn build(&mut self) -> (r: Result<RUN, String>)
        ensures
            *final(self) == *old(self),
            outcome(r) == old(self).spec_build(),
            old(self).executable is None ==> outcome(r) == rejected(
                "executable is required for RunExecBuilder"@,
            ),
    {
        match self.check_build() {
            Err(e) => Err(e),
            Ok(b) => match b.value() {
                Err(e) => Err(e),
                Ok(v) => Ok(RUN { value: v }),
            },
        }
    }
}

/// The value of the shell form of `CMD`: `CMD <command> <param> ...`.
pub open spec fn cmd_value(
    command: Seq<char>,
    params: Option<Seq<Seq<char>>>,
) -> Result<Seq<char>, Seq<char>> {
    Ok(command + " "@ + joined(or_empty(params), " "@))
}

/// Fields of a [`CMD`] instruction, every required one set.
pub struct CmdBuilder {
    pub command: String,
    pub params: Option<Vec<String>>,
}

impl CmdBuilder {
    /// An accumulator with every field unset.
    pub fn builder() -> (r: CmdBuilderInner)
        ensures
            r.command is None,
            r.params is None,
    {
        CmdBuilderInner { command: None, params: None }
    }

    /// What [`Self::value`] gives, as text.
    pub open spec fn spec_value(&self) -> Result<Seq<char>, Seq<char>> {
        cmd_value(
            self.command@,
            opt_texts(self.params),
        )
    }

    /// Formats the fields as the text that follows `CMD`.
    pub fn value(&self) -> (r: Result<String, String>)
        ensures
            outcome(r) == self.spec_value(),
    {
        let mut r = String::new();
        r.append(self.command.as_str());
        r.append(" ");
        let params = join_opt(&self.params, " ");
        r.append(params.as_str());
        assert(r@ =~= self.spec_value()->Ok_0);
        Ok(r)
    }
}

/// Accumulates the fields of a [`CmdBuilder`]; each is unset until its setter is called.
pub struct CmdBuilderInner {
    pub command: Option<String>,
    pub params: Option<Vec<String>>,
}

impl CmdBuilderInner {
    /// Sets `command`.
    pub fn command(&mut self, command: &str) -> (r: &mut Self)
        ensures
            opt_text(r.command) == Some(command@),
            r.params == old(self).params,
            *final(self) == *final(r),
    {
        self.command = Some(String::from_str(command));
        self
    }

    /// Sets `params` to the whole list, replacing what it held.
    pub fn params(&mut self, params: Vec<&str>) -> (r: &mut Self)
        ensures
            opt_texts(r.params) == Some(str_texts(params@)),
            r.command == old(self).command,
            *final(self) == *final(r),
    {
        self.params = Some(to_strings(&params));
        self
    }

    /// Appends one element to `params`, starting the list if it is unset.
    pub fn param(&mut self, param: &str) -> (r: &mut Self)
        ensures
            opt_texts(r.params) == appended(opt_texts(old(self).params), param@),
            r.command == old(self).command,
            *final(self) == *final(r),
    {
        let item = String::from_str(param);
        let mut list = match self.params.take() {
            Some(list) => list,
            None => Vec::new(),
        };
        let ghost before = list@;
        list.push(item);
        assert(texts(list@) =~= texts(before).push(param@));
        self.params = Some(list);
        self
    }

    /// The message naming the first unset required field; none when all are set.
    pub open spec fn missing(&self) -> Option<Seq<char>> {
        if self.command is None {
            Some("command is required for CmdBuilder"@)
        } else {
            None
        }
    }

    /// What [`Self::build`] gives, as text: the missing field, or the formatted value.
    pub open spec fn spec_build(&self) -> Result<Seq<char>, Seq<char>> {
        match self.missing() {
            Some(m) => Err(m),
            None => cmd_value(
                self.command->0@,
                opt_texts(self.params),
            ),
        }
    }

    /// The checked fields, or the message naming the first unset required one.
    pub fn check_build(&mut self) -> (r: Result<CmdBuilder, String>)
        ensures
            *final(self) == *old(self),
            r is Ok <==> old(self).missing() is None,
            r matches Err(e) ==> Some(e@) == old(self).missing(),
            r matches Ok(b) ==> {
                &&& b.command@ == old(self).command->0@
                &&& opt_texts(b.params) == opt_texts(old(self).params)
            },
    {
        let command = match &self.command {
            Some(v) => v.clone(),
            None => {
                return Err(String::from_str("command is required for CmdBuilder"));
            },
        };
        Ok(CmdBuilder { command, params: copy_opt_list(&self.params) })
    }

    /// Checks the fields and formats them into a `CMD` instruction.
    pub fn build(&mut self) -> (r: Result<CMD, String>)
        ensures
            *final(self) == *old(self),
            outcome(r) == old(self).spec_build(),
            old(self).command is None ==> outcome(r) == rejected(
                "command is required for CmdBuilder"@,
            ),
    {
        match self.check_build() {
            Err(e) => Err(e),
            Ok(b) => match b.value() {
                Err(e) => Err(e),
                Ok(v) => Ok(CMD { value: v }),
            },
        }
    }
}

/// The value of the exec form of `CMD`: `CMD ["<executable>", "<param>", ...]`, or only the parameters
/// when they are defaults for `ENTRYPOINT`; one of the two must be set.
pub open spec fn cmd_exec_value(
    executable: Option<Seq<char>>,
    params: Option<Seq<Seq<char>>>,
) -> Result<Seq<char>, Seq<char>> {
    if executable is None && params is None {
        Err("CMD cannot be empty"@)
    } else {
        Ok("["@ + affix(executable, "\""@, "\", "@) + "\""@ + joined(or_empty(params), "\", \""@) + "\"]"@)
    }
}

/// Fields of a [`CMD`] instruction, every required one set.
pub struct CmdExecBuilder {
    pub executable: Option<String>,
    pub params: Option<Vec<String>>,
}

impl CmdExecBuilder {
    /// An accumulator with every field unset.
    pub fn builder() -> (r: CmdExecBuilderInner)
        ensures
            r.executable is None,
            r.params is None,
    {
        CmdExecBuilderInner { executable: None, params: None }
    }

    /// What [`Self::value`] gives, as text.
    pub open spec fn spec_value(&self) -> Result<Seq<char>, Seq<char>> {
        cmd_exec_value(
            opt_text(self.executable),
            opt_texts(self.params),
        )
    }

    /// Formats the fields as the text that follows `CMD`.
    pub fn value(&self) -> (r: Result<String, String>)
        ensures
            outcome(r) == self.spec_value(),
    {
        if self.executable.is_none() && self.params.is_none() {
            return Err(String::from_str("CMD cannot be empty"));
        }
        let mut r = String::new();
        r.append("[");
        push_affixed(&mut r, &self.executable, "\"", "\", ");
        r.append("\"");
        let params = join_opt(&self.params, "\", \"");
        r.append(params.as_str());
        r.append("\"]");
        assert(r@ =~= self.spec_value()->Ok_0);
        Ok(r)
    }
}

/// Accumulates the fields of a [`CmdExecBuilder`]; each is unset until its setter is called.
pub struct CmdExecBuilderInner {
    pub executable: Option<String>,
    pub params: Option<Vec<String>>,
}

impl CmdExecBuilderInner {
    /// Sets `executable`.
    pub fn executable(&mut self, executable: &str) -> (r: &mut Self)
        ensures
            opt_text(r.executable) == Some(executable@),
            r.params == old(self).params,
            *final(self) == *final(r),
    {
        self.executable = Some(String::from_str(executable));
        self
    }

    /// Sets `params` to the whole list, replacing what it held.
    pub fn params(&mut self, params: Vec<&str>) -> (r: &mut Self)
        ensures
            opt_texts(r.params) == Some(str_texts(params@)),
            r.executable == old(self).executable,
            *final(self) == *final(r),
    {
        self.params = Some(to_strings(&params));
        self
    }

    /// Appends one element to `params`, starting the list if it is unset.
    pub fn param(&mut self, param: &str) -> (r: &mut Self)
        ensures
            opt_texts(r.params) == appended(opt_texts(old(self).params), param@),
            r.executable == old(self).executable,
            *final(self) == *final(r),
    {
        let item = String::from_str(param);
        let mut list = match self.params.take() {
            Some(list) => list,
            None => Vec::new(),
        };
        let ghost before = list@;
        list.push(item);
        assert(texts(list@) =~= texts(before).push(param@));
        self.params = Some(list);
        self
    }

    /// The message naming the first unset required field; none when all are set.
    pub open spec fn missing(&self) -> Option<Seq<char>> {
        None
    }

    /// What [`Self::build`] gives, as text: the missing field, or the formatted value.
    pub open spec fn spec_build(&self) -> Result<Seq<char>, Seq<char>> {
        match self.missing() {
            Some(m) => Err(m),
            None => cmd_exec_value(
                opt_text(self.executable),
                opt_texts(self.params),
            ),
        }
    }

    /// The checked fields, or the message naming the first unset required one.
    pub fn check_build(&mut self) -> (r: Result<CmdExecBuilder, String>)
        ensures
            *final(self) == *old(self),
            r is Ok <==> old(self).missing() is None,
            r matches Err(e) ==> Some(e@) == old(self).missing(),
            r matches Ok(b) ==> {
                &&& b.executable == old(self).executable
                &&& opt_texts(b.params) == opt_texts(old(self).params)
            },
    {
        Ok(
            CmdExecBuilder {
                executable: copy_opt(&self.executable),
                params: copy_opt_list(&self.params),
            },
        )
    }

    /// Checks the fields and formats them into a `CMD` instruction.
    pub fn build(&mut self) -> (r: Result<CMD, String>)
        ensures
            *final(self) == *old(self),
            outcome(r) == old(self).spec_build(),
            old(self).executable is None && old(self).params is None ==> outcome(r) == rejected(
                "CMD cannot be empty"@,
            ),
    {
        match self.check_build() {
            Err(e) => Err(e),
            Ok(b) => match b.value() {
                Err(e) => Err(e),
                Ok(v) => Ok(CMD { value: v }),
            },
        }
    }
}

/// The value of `LABEL <key>=<value>`.
pub open spec fn label_value(
    key: Seq<char>,
    value: Seq<char>,
) -> Result<Seq<char>, Seq<char>> {
    Ok(key + "="@ + value)
}

/// Fields of a [`LABEL`] instruction, every required one set.
pub struct LabelBuilder {
    pub key: String,
    pub value: String,
}

impl LabelBuilder {
    /// An accumulator with every field unset.
    pub fn builder() -> (r: LabelBuilderInner)
        ensures
            r.key is None,
            r.value is None,
    {
        LabelBuilderInner { key: None, value: None }
    }

    /// What [`Self::value`] gives, as text.
    pub open spec fn spec_value(&self) -> Result<Seq<char>, Seq<char>> {
        label_value(
            self.key@,
            self.value@,
        )
    }

    /// Formats the fields as the text that follows `LABEL`.
    pub fn value(&self) -> (r: Result<String, String>)
        ensures
            outcome(r) == self.spec_value(),
    {
        let mut r = String::new();
        r.append(self.key.as_str());
        r.append("=");
        r.append(self.value.as_str());
        assert(r@ =~= self.spec_value()->Ok_0);
        Ok(r)
    }
}

/// Accumulates the fields of a [`LabelBuilder`]; each is unset until its setter is called.
pub struct LabelBuilderInner {
    pub key: Option<String>,
    pub value: Option<String>,
}

impl LabelBuilderInner {
    /// Sets `key`.
    pub fn key(&mut self, key: &str) -> (r: &mut Self)
        ensures
            opt_text(r.key) == Some(key@),
            r.value == old(self).value,
            *final(self) == *final(r),
    {
        self.key = Some(String::from_str(key));
        self
    }

    /// Sets `value`.
    pub fn value(&mut self, value: &str) -> (r: &mut Self)
        ensures
            opt_text(r.value) == Some(value@),
            r.key == old(self).key,
            *final(self) == *final(r),
    {
        self.value = Some(String::from_str(value));
        self
    }

    /// The message naming the first unset required field; none when all are set.
    pub open spec fn missing(&self) -> Option<Seq<char>> {
        if self.key is None {
            Some("key is required for LabelBuilder"@)
        } else if self.value is None {
            Some("value is required for LabelBuilder"@)
        } else {
            None
        }
    }

    /// What [`Self::build`] gives, as text: the missing field, or the formatted value.
    pub open spec fn spec_build(&self) -> Result<Seq<char>, Seq<char>> {
        match self.missing() {
            Some(m) => Err(m),
            None => label_value(
                self.key->0@,
                self.value->0@,
            ),
        }
    }

    /// The checked fields, or the message naming the first unset required one.
    pub fn check_build(&mut self) -> (r: Result<LabelBuilder, String>)
        ensures
            *final(self) == *old(self),
            r is Ok <==> old(self).missing() is None,
            r matches Err(e) ==> Some(e@) == old(self).missing(),
            r matches Ok(b) ==> {
                &&& b.key@ == old(self).key->0@
                &&& b.value@ == old(self).value->0@
            },
    {
        let key = match &self.key {
            Some(v) => v.clone(),
            None => {
                return Err(String::from_str("key is required for LabelBuilder"));
            },
        };
        let value = match &self.value {
            Some(v) => v.clone(),
            None => {
                return Err(String::from_str("value is required for LabelBuilder"));
            },
        };
        Ok(LabelBuilder { key, value })
    }

    /// Checks the fields and formats them into a `LABEL` instruction.
    pub fn build(&mut self) -> (r: Result<LABEL, String>)
        ensures
            *final(self) == *old(self),
            outcome(r) == old(self).spec_build(),
            old(self).key is None ==> outcome(r) == rejected(
                "key is required for LabelBuilder"@,
            ),
            old(self).key is Some && old(self).value is None ==> outcome(r) == rejected(
                "value is required for LabelBuilder"@,
            ),
    {
        match self.check_build() {
            Err(e) => Err(e),
            Ok(b) => match b.value() {
                Err(e) => Err(e),
                Ok(v) => Ok(LABEL { value: v }),
            },
        }
    }
}

/// The value of `EXPOSE <port>[/<protocol>]`.
pub open spec fn expose_value(
    port: u16,
    protocol: Option<Seq<char>>,
) -> Result<Seq<char>, Seq<char>> {
    Ok(decimal(port as nat) + affix(protocol, "/"@, ""@))
}

/// Fields of a [`EXPOSE`] instruction, every required one set.
pub struct ExposeBuilder {
    pub port: u16,
    pub protocol: Option<String>,
}

impl ExposeBuilder {
    /// An accumulator with every field unset.
    pub fn builder() -> (r: ExposeBuilderInner)
        ensures
            r.port is None,
            r.protocol is None,
    {
        ExposeBuilderInner { port: None, protocol: None }
    }

    /// What [`Self::value`] gives, as text.
    pub open spec fn spec_value(&self) -> Result<Seq<char>, Seq<char>> {
        expose_value(
            self.port,
            opt_text(self.protocol),
        )
    }

    /// Formats the fields as the text that follows `EXPOSE`.
    pub fn value(&self) -> (r: Result<String, String>)
        ensures
            outcome(r) == self.spec_value(),
    {
        let mut r = String::new();
        push_decimal(&mut r, self.port as u64);
        push_affixed(&mut r, &self.protocol, "/", "");
        assert(r@ =~= self.spec_value()->Ok_0);
        Ok(r)
    }
}

/// Accumulates the fields of a [`ExposeBuilder`]; each is unset until its setter is called.
pub struct ExposeBuilderInner {
    pub port: Option<u16>,
    pub protocol: Option<String>,
}

impl ExposeBuilderInner {
    /// Sets `port`.
    pub fn port(&mut self, port: u16) -> (r: &mut Self)
        ensures
            r.port == Some(port),
            r.protocol == old(self).protocol,
            *final(self) == *final(r),
    {
        self.port = Some(port);
        self
    }

    /// Sets `protocol`.
    pub fn protocol(&mut self, protocol: &str) -> (r: &mut Self)
        ensures
            opt_text(r.protocol) == Some(protocol@),
            r.port == old(self).port,
            *final(self) == *final(r),
    {
        self.protocol = Some(String::from_str(protocol));
        self
    }

    /// The message naming the first unset required field; none when all are set.
    pub open spec fn missing(&self) -> Option<Seq<char>> {
        if self.port is None {
            Some("port is required for ExposeBuilder"@)
        } else {
            None
        }
    }

    /// What [`Self::build`] gives, as text: the missing field, or the formatted value.
    pub open spec fn spec_build(&self) -> Result<Seq<char>, Seq<char>> {
        match self.missing() {
            Some(m) => Err(m),
            None => expose_value(
                self.port->0,
                opt_text(self.protocol),
            ),
        }
    }

    /// The checked fields, or the message naming the first unset required one.
    pub fn check_build(&mut self) -> (r: Result<ExposeBuilder, String>)
        ensures
            *final(self) == *old(self),
            r is Ok <==> old(self).missing() is None,
            r matches Err(e) ==> Some(e@) == old(self).missing(),
            r matches Ok(b) ==> {
                &&& b.port == old(self).port->0
                &&& b.protocol == old(self).protocol
            },
    {
        let port = match &self.port {
            Some(v) => *v,
            None => {
                return Err(String::from_str("port is required for ExposeBuilder"));
            },
        };
        Ok(ExposeBuilder { port, protocol: copy_opt(&self.protocol) })
    }

    /// Checks the fields and formats them into a `EXPOSE` instruction.
    pub fn build(&mut self) -> (r: Result<EXPOSE, String>)
        ensures
            *final(self) == *old(self),
            outcome(r) == old(self).spec_build(),
            old(self).port is None ==> outcome(r) == rejected(
                "port is required for ExposeBuilder"@,
            ),
    {
        match self.check_build() {
            Err(e) => Err(e),
            Ok(b) => match b.value() {
                Err(e) => Err(e),
                Ok(v) => Ok(EXPOSE { value: v }),
            },
        }
    }
}

/// The value of `ADD [--chown=<chown>] [--chmod=<chmod>] <src> <dest>`.
pub open spec fn add_value(
    src: Seq<char>,
    dest: Seq<char>,
    chown: Option<Seq<char>>,
    chmod: Option<u16>,
) -> Result<Seq<char>, Seq<char>> {
    Ok(affix(chown, "--chown="@, " "@) + affix(opt_decimal(chmod), "--chmod="@, " "@) + src + " "@ + dest)
}

/// Fields of a [`ADD`] instruction, every required one set.
pub struct AddBuilder {
    pub src: String,
    pub dest: String,
    pub chown: Option<String>,
    pub chmod: Option<u16>,
}

impl AddBuilder {
    /// An accumulator with every field unset.
    pub fn builder() -> (r: AddBuilderInner)
        ensures
            r.src is None,
            r.dest is None,
            r.chown is None,
            r.chmod is None,
    {
        AddBuilderInner { src: None, dest: None, chown: None, chmod: None }
    }

    /// What [`Self::value`] gives, as text.
    pub open spec fn spec_value(&self) -> Result<Seq<char>, Seq<char>> {
        add_value(
            self.src@,
            self.dest@,
            opt_text(self.chown),
            self.chmod,
        )
    }

    /// Formats the fields as the text that follows `ADD`.
    pub fn value(&self) -> (r: Result<String, String>)
        ensures
            outcome(r) == self.spec_value(),
    {
        let mut r = String::new();
        push_affixed(&mut r, &self.chown, "--chown=", " ");
        push_affixed_decimal(&mut r, self.chmod, "--chmod=", " ");
        r.append(self.src.as_str());
        r.append(" ");
        r.append(self.dest.as_str());
        assert(r@ =~= self.spec_value()->Ok_0);
        Ok(r)
    }
}

/// Accumulates the fields of a [`AddBuilder`]; each is unset until its setter is called.
pub struct AddBuilderInner {
    pub src: Option<String>,
    pub dest: Option<String>,
    pub chown: Option<String>,
    pub chmod: Option<u16>,
}

impl AddBuilderInner {
    /// Sets `src`.
    pub fn src(&mut self, src: &str) -> (r: &mut Self)
        ensures
            opt_text(r.src) == Some(src@),
            r.dest == old(self).dest,
            r.chown == old(self).chown,
            r.chmod == old(self).chmod,
            *final(self) == *final(r),
    {
        self.src = Some(String::from_str(src));
        self
    }

    /// Sets `dest`.
    pub fn dest(&mut self, dest: &str) -> (r: &mut Self)
        ensures
            opt_text(r.dest) == Some(dest@),
            r.src == old(self).src,
            r.chown == old(self).chown,
            r.chmod == old(self).chmod,
            *final(self) == *final(r),
    {
        self.dest = Some(String::from_str(dest));
        self
    }

    /// Sets `chown`.
    pub fn chown(&mut self, chown: &str) -> (r: &mut Self)
        ensures
            opt_text(r.chown) == Some(chown@),
            r.src == old(self).src,
            r.dest == old(self).dest,
            r.chmod == old(self).chmod,
            *final(self) == *final(r),
    {
        self.chown = Some(String::from_str(chown));
        self
    }

    /// Sets `chmod`.
    pub fn chmod(&mut self, chmod: u16) -> (r: &mut Self)
        ensures
            r.chmod == Some(chmod),
            r.src == old(self).src,
            r.dest == old(self).dest,
            r.chown == old(self).chown,
            *final(self) == *final(r),
    {
        self.chmod = Some(chmod);
        self
    }

    /// The message naming the first unset required field; none when all are set.
    pub open spec fn missing(&self) -> Option<Seq<char>> {
        if self.src is None {
            Some("src is required for AddBuilder"@)
        } else if self.dest is None {
            Some("dest is required for AddBuilder"@)
        } else {
            None
        }
    }

    /// What [`Self::build`] gives, as text: the missing field, or the formatted value.
    pub open spec fn spec_build(&self) -> Result<Seq<char>, Seq<char>> {
        match self.missing() {
            Some(m) => Err(m),
            None => add_value(
                self.src->0@,
                self.dest->0@,
                opt_text(self.chown),
                self.chmod,
            ),
        }
    }

    /// The checked fields, or the message naming the first unset required one.
    pub fn check_build(&mut self) -> (r: Result<AddBuilder, String>)
        ensures
            *final(self) == *old(self),
            r is Ok <==> old(self).missing() is None,
            r matches Err(e) ==> Some(e@) == old(self).missing(),
            r matches Ok(b) ==> {
                &&& b.src@ == old(self).src->0@
                &&& b.dest@ == old(self).dest->0@
                &&& b.chown == old(self).chown
                &&& b.chmod == old(self).chmod
            },
    {
        let src = match &self.src {
            Some(v) => v.clone(),
            None => {
                return Err(String::from_str("src is required for AddBuilder"));
            },
        };
        let dest = match &self.dest {
            Some(v) => v.clone(),
            None => {
                return Err(String::from_str("dest is required for AddBuilder"));
            },
        };
        Ok(AddBuilder { src, dest, chown: copy_opt(&self.chown), chmod: self.chmod })
    }

    /// Checks the fields and formats them into a `ADD` instruction.
    pub fn build(&mut self) -> (r: Result<ADD, String>)
        ensures
            *final(self) == *old(self),
            outcome(r) == old(self).spec_build(),
            old(self).src is None ==> outcome(r) == rejected(
                "src is required for AddBuilder"@,
            ),
            old(self).src is Some && old(self).dest is None ==> outcome(r) == rejected(
                "dest is required for AddBuilder"@,
            ),
    {
        match self.check_build() {
            Err(e) => Err(e),
            Ok(b) => match b.value() {
                Err(e) => Err(e),
                Ok(v) => Ok(ADD { value: v }),
            },
        }
    }
}

/// The value of `ADD` of a remote file: `ADD [--checksum=<checksum>] <src> <dest>`.
pub open spec fn add_http_value(
    src: Seq<char>,
    dest: Seq<char>,
    checksum: Option<Seq<char>>,
) -> Result<Seq<char>, Seq<char>> {
    Ok(affix(checksum, "--checksum="@, " "@) + src + " "@ + dest)
}

/// Fields of a [`ADD`] instruction, every required one set.
pub struct AddHttpBuilder {
    pub src: String,
    pub dest: String,
    pub checksum: Option<String>,
}

impl AddHttpBuilder {
    /// An accumulator with every field unset.
    pub fn builder() -> (r: AddHttpBuilderInner)
        ensures
            r.src is None,
            r.dest is None,
            r.checksum is None,
    {
        AddHttpBuilderInner { src: None, dest: None, checksum: None }
    }

    /// What [`Self::value`] gives, as text.
    pub open spec fn spec_value(&self) -> Result<Seq<char>, Seq<char>> {
        add_http_value(
            self.src@,
            self.dest@,
            opt_text(self.checksum),
        )
    }

    /// Formats the fields as the text that follows `ADD`.
    pub fn value(&self) -> (r: Result<String, String>)
        ensures
            outcome(r) == self.spec_value(),
    {
        let mut r = String::new();
        push_affixed(&mut r, &self.checksum, "--checksum=", " ");
        r.append(self.src.as_str());
        r.append(" ");
        r.append(self.dest.as_str());
        assert(r@ =~= self.spec_value()->Ok_0);
        Ok(r)
    }
}

/// Accumulates the fields of a [`AddHttpBuilder`]; each is unset until its setter is called.
pub struct AddHttpBuilderInner {
    pub src: Option<String>,
    pub dest: Option<String>,
    pub checksum: Option<String>,
}

impl AddHttpBuilderInner {
    /// Sets `src`.
    pub fn src(&mut self, src: &str) -> (r: &mut Self)
        ensures
            opt_text(r.src) == Some(src@),
            r.dest == old(self).dest,
            r.checksum == old(self).checksum,
            *final(self) == *final(r),
    {
        self.src = Some(String::from_str(src));
        self
    }

    /// Sets `dest`.
    pub fn dest(&mut self, dest: &str) -> (r: &mut Self)
        ensures
            opt_text(r.dest) == Some(dest@),
            r.src == old(self).src,
            r.checksum == old(self).checksum,
            *final(self) == *final(r),
    {
        self.dest = Some(String::from_str(dest));
        self
    }

    /// Sets `checksum`.
    pub fn checksum(&mut self, checksum: &str) -> (r: &mut Self)
        ensures
            opt_text(r.checksum) == Some(checksum@),
            r.src == old(self).src,
            r.dest == old(self).dest,
            *final(self) == *final(r),
    {
        self.checksum = Some(String::from_str(checksum));
        self
    }

    /// The message naming the first unset required field; none when all are set.
    pub open spec fn missing(&self) -> Option<Seq<char>> {
        if self.src is None {
            Some("src is required for AddHttpBuilder"@)
        } else if self.dest is None {
            Some("dest is required for AddHttpBuilder"@)
        } else {
            None
        }
    }

    /// What [`Self::build`] gives, as text: the missing field, or the formatted value.
    pub open spec fn spec_build(&self) -> Result<Seq<char>, Seq<char>> {
        match self.missing() {
            Some(m) => Err(m),
            None => add_http_value(
                self.src->0@,
                self.dest->0@,
                opt_text(self.checksum),
            ),
        }
    }

    /// The checked fields, or the message naming the first unset required one.
    pub fn check_build(&mut self) -> (r: Result<AddHttpBuilder, String>)
        ensures
            *final(self) == *old(self),
            r is Ok <==> old(self).missing() is None,
            r matches Err(e) ==> Some(e@) == old(self).missing(),
            r matches Ok(b) ==> {
                &&& b.src@ == old(self).src->0@
                &&& b.dest@ == old(self).dest->0@
                &&& b.checksum == old(self).checksum
            },
    {
        let src = match &self.src {
            Some(v) => v.clone(),
            None => {
                return Err(String::from_str("src is required for AddHttpBuilder"));
            },
        };
        let dest = match &self.dest {
            Some(v) => v.clone(),
            None => {
                return Err(String::from_str("dest is required for AddHttpBuilder"));
            },
        };
        Ok(AddHttpBuilder { src, dest, checksum: copy_opt(&self.checksum) })
    }

    /// Checks the fields and formats them into a `ADD` instruction.
    pub fn build(&mut self) -> (r: Result<ADD, String>)
        ensures
            *final(self) == *old(self),
            outcome(r) == old(self).spec_build(),
            old(self).src is None ==> outcome(r) == rejected(
                "src is required for AddHttpBuilder"@,
            ),
            old(self).src is Some && old(self).dest is None ==> outcome(r) == rejected(
                "dest is required for AddHttpBuilder"@,
            ),
    {
        match self.check_build() {
            Err(e) => Err(e),
            Ok(b) => match b.value() {
                Err(e) => Err(e),
                Ok(v) => Ok(ADD { value: v }),
            },
        }
    }
}

/// The value of `ADD` of a git repository: `ADD [--keep-git-dir=<boolean>] <git ref> <dir>`.
pub open spec fn add_git_value(
    git_ref: Seq<char>,
    dir: Seq<char>,
    keep_git_dir: Option<bool>,
) -> Result<Seq<char>, Seq<char>> {
    Ok(affix(opt_bool_text(keep_git_dir), "--keep-git-dir="@, " "@) + git_ref + " "@ + dir)
}

/// Fields of a [`ADD`] instruction, every required one set.
pub struct AddGitBuilder {
    pub git_ref: String,
    pub dir: String,
    pub keep_git_dir: Option<bool>,
}

impl AddGitBuilder {
    /// An accumulator with every field unset.
    pub fn builder() -> (r: AddGitBuilderInner)
        ensures
            r.git_ref is None,
            r.dir is None,
            r.keep_git_dir is None,
    {
        AddGitBuilderInner { git_ref: None, dir: None, keep_git_dir: None }
    }

    /// What [`Self::value`] gives, as text.
    pub open spec fn spec_value(&self) -> Result<Seq<char>, Seq<char>> {
        add_git_value(
            self.git_ref@,
            self.dir@,
            self.keep_git_dir,
        )
    }

    /// Formats the fields as the text that follows `ADD`.
    pub fn value(&self) -> (r: Result<String, String>)
        ensures
            outcome(r) == self.spec_value(),
    {
        let mut r = String::new();
        push_affixed_bool(&mut r, self.keep_git_dir, "--keep-git-dir=", " ");
        r.append(self.git_ref.as_str());
        r.append(" ");
        r.append(self.dir.as_str());
        assert(r@ =~= self.spec_value()->Ok_0);
        Ok(r)
    }
}

/// Accumulates the fields of a [`AddGitBuilder`]; each is unset until its setter is called.
pub struct AddGitBuilderInner {
    pub git_ref: Option<String>,
    pub dir: Option<String>,
    pub keep_git_dir: Option<bool>,
}

impl AddGitBuilderInner {
    /// Sets `git_ref`.
    pub fn git_ref(&mut self, git_ref: &str) -> (r: &mut Self)
        ensures
            opt_text(r.git_ref) == Some(git_ref@),
            r.dir == old(self).dir,
            r.keep_git_dir == old(self).keep_git_dir,
            *final(self) == *final(r),
    {
        self.git_ref = Some(String::from_str(git_ref));
        self
    }

    /// Sets `dir`.
    pub fn dir(&mut self, dir: &str) -> (r: &mut Self)
        ensures
            opt_text(r.dir) == Some(dir@),
            r.git_ref == old(self).git_ref,
            r.keep_git_dir == old(self).keep_git_dir,
            *final(self) == *final(r),
    {
        self.dir = Some(String::from_str(dir));
        self
    }

    /// Sets `keep_git_dir`.
    pub fn keep_git_dir(&mut self, keep_git_dir: bool) -> (r: &mut Self)
        ensures
            r.keep_git_dir == Some(keep_git_dir),
            r.git_ref == old(self).git_ref,
            r.dir == old(self).dir,
            *final(self) == *final(r),
    {
        self.keep_git_dir = Some(keep_git_dir);
        self
    }

    /// The message naming the first unset required field; none when all are set.
    pub open spec fn missing(&self) -> Option<Seq<char>> {
        if self.git_ref is None {
            Some("git_ref is required for AddGitBuilder"@)
        } else if self.dir is None {
            Some("dir is required for AddGitBuilder"@)
        } else {
            None
        }
    }

    /// What [`Self::build`] gives, as text: the missing field, or the formatted value.
    pub open spec fn spec_build(&self) -> Result<Seq<char>, Seq<char>> {
        match self.missing() {
            Some(m) => Err(m),
            None => add_git_value(
                self.git_ref->0@,
                self.dir->0@,
                self.keep_git_dir,
            ),
        }
    }

    /// The checked fields, or the message naming the first unset required one.
    pub fn check_build(&mut self) -> (r: Result<AddGitBuilder, String>)
        ensures
            *final(self) == *old(self),
            r is Ok <==> old(self).missing() is None,
            r matches Err(e) ==> Some(e@) == old(self).missing(),
            r matches Ok(b) ==> {
                &&& b.git_ref@ == old(self).git_ref->0@
                &&& b.dir@ == old(self).dir->0@
                &&& b.keep_git_dir == old(self).keep_git_dir
            },
    {
        let git_ref = match &self.git_ref {
            Some(v) => v.clone(),
            None => {
                return Err(String::from_str("git_ref is required for AddGitBuilder"));
            },
        };
        let dir = match &self.dir {
            Some(v) => v.clone(),
            None => {
                return Err(String::from_str("dir is required for AddGitBuilder"));
            },
        };
        Ok(AddGitBuilder { git_ref, dir, keep_git_dir: self.keep_git_dir })
    }

    /// Checks the fields and formats them into a `ADD` instruction.
    pub fn build(&mut self) -> (r: Result<ADD, String>)
        ensures
            *final(self) == *old(self),
            outcome(r) == old(self).spec_build(),
            old(self).git_ref is None ==> outcome(r) == rejected(
                "git_ref is required for AddGitBuilder"@,
            ),
            old(self).git_ref is Some && old(self).dir is None ==> outcome(r) == rejected(
                "dir is required for AddGitBuilder"@,
            ),
    {
        match self.check_build() {
            Err(e) => Err(e),
            Ok(b) => match b.value() {
                Err(e) => Err(e),
                Ok(v) => Ok(ADD { value: v }),
            },
        }
    }
}

/// The value of `COPY [--chown=<chown>] [--chmod=<chmod>] [--link] [--from=<from>] <src> <dest>`; `--link`
/// appears when `link` is set to true.
pub open spec fn copy_value(
    src: Seq<char>,
    dest: Seq<char>,
    chown: Option<Seq<char>>,
    chmod: Option<u16>,
    link: Option<bool>,
    from: Option<Seq<char>>,
) -> Result<Seq<char>, Seq<char>> {
    Ok(affix(chown, "--chown="@, " "@) + affix(opt_decimal(chmod), "--chmod="@, " "@) + (if link
        == Some(true) {
        "--link "@
    } else {
        seq![]
    }) + affix(from, "--from="@, " "@) + src + " "@ + dest)
}

/// Fields of a [`COPY`] instruction, every required one set.
pub struct CopyBuilder {
    pub src: String,
    pub dest: String,
    pub chown: Option<String>,
    pub chmod: Option<u16>,
    pub link: Option<bool>,
    pub from: Option<String>,
}

impl CopyBuilder {
    /// An accumulator with every field unset.
    pub fn builder() -> (r: CopyBuilderInner)
        ensures
            r.src is None,
            r.dest is None,
            r.chown is None,
            r.chmod is None,
            r.link is None,
            r.from is None,
    {
        CopyBuilderInner { src: None, dest: None, chown: None, chmod: None, link: None, from: None }
    }

    /// What [`Self::value`] gives, as text.
    pub open spec fn spec_value(&self) -> Result<Seq<char>, Seq<char>> {
        copy_value(
            self.src@,
            self.dest@,
            opt_text(self.chown),
            self.chmod,
            self.link,
            opt_text(self.from),
        )
    }

    /// Formats the fields as the text that follows `COPY`.
    pub fn value(&self) -> (r: Result<String, String>)
        ensures
            outcome(r) == self.spec_value(),
    {
        let mut r = String::new();
        push_affixed(&mut r, &self.chown, "--chown=", " ");
        push_affixed_decimal(&mut r, self.chmod, "--chmod=", " ");
        match self.link {
            Some(true) => r.append("--link "),
            _ => {},
        }
        push_affixed(&mut r, &self.from, "--from=", " ");
        r.append(self.src.as_str());
        r.append(" ");
        r.append(self.dest.as_str());
        assert(r@ =~= self.spec_value()->Ok_0);
        Ok(r)
    }
}

/// Accumulates the fields of a [`CopyBuilder`]; each is unset until its setter is called.
pub struct CopyBuilderInner {
    pub src: Option<String>,
    pub dest: Option<String>,
    pub chown: Option<String>,
    pub chmod: Option<u16>,
    pub link: Option<bool>,
    pub from: Option<String>,
}

impl CopyBuilderInner {
    /// Sets `src`.
    pub fn src(&mut self, src: &str) -> (r: &mut Self)
        ensures
            opt_text(r.src) == Some(src@),
            r.dest == old(self).dest,
            r.chown == old(self).chown,
            r.chmod == old(self).chmod,
            r.link == old(self).link,
            r.from == old(self).from,
            *final(self) == *final(r),
    {
        self.src = Some(String::from_str(src));
        self
    }

    /// Sets `dest`.
    pub fn dest(&mut self, dest: &str) -> (r: &mut Self)
        ensures
            opt_text(r.dest) == Some(dest@),
            r.src == old(self).src,
            r.chown == old(self).chown,
            r.chmod == old(self).chmod,
            r.link == old(self).link,
            r.from == old(self).from,
            *final(self) == *final(r),
    {
        self.dest = Some(String::from_str(dest));
        self
    }

    /// Sets `chown`.
    pub fn chown(&mut self, chown: &str) -> (r: &mut Self)
        ensures
            opt_text(r.chown) == Some(chown@),
            r.src == old(self).src,
            r.dest == old(self).dest,
            r.chmod == old(self).chmod,
            r.link == old(self).link,
            r.from == old(self).from,
            *final(self) == *final(r),
    {
        self.chown = Some(String::from_str(chown));
        self
    }

    /// Sets `chmod`.
    pub fn chmod(&mut self, chmod: u16) -> (r: &mut Self)
        ensures
            r.chmod == Some(chmod),
            r.src == old(self).src,
            r.dest == old(self).dest,
            r.chown == old(self).chown,
            r.link == old(self).link,
            r.from == old(self).from,
            *final(self) == *final(r),
    {
        self.chmod = Some(chmod);
        self
    }

    /// Sets `link`.
    pub fn link(&mut self, link: bool) -> (r: &mut Self)
        ensures
            r.link == Some(link),
            r.src == old(self).src,
            r.dest == old(self).dest,
            r.chown == old(self).chown,
            r.chmod == old(self).chmod,
            r.from == old(self).from,
            *final(self) == *final(r),
    {
        self.link = Some(link);
        self
    }

    /// Sets `from`.
    pub fn from(&mut self, from: &str) -> (r: &mut Self)
        ensures
            opt_text(r.from) == Some(from@),
            r.src == old(self).src,
            r.dest == old(self).dest,
            r.chown == old(self).chown,
            r.chmod == old(self).chmod,
            r.link == old(self).link,
            *final(self) == *final(r),
    {
        self.from = Some(String::from_str(from));
        self
    }

    /// The message naming the first unset required field; none when all are set.
    pub open spec fn missing(&self) -> Option<Seq<char>> {
        if self.src is None {
            Some("src is required for CopyBuilder"@)
        } else if self.dest is None {
            Some("dest is required for CopyBuilder"@)
        } else {
            None
        }
    }

    /// What [`Self::build`] gives, as text: the missing field, or the formatted value.
    pub open spec fn spec_build(&self) -> Result<Seq<char>, Seq<char>> {
        match self.missing() {
            Some(m) => Err(m),
            None => copy_value(
                self.src->0@,
                self.dest->0@,
                opt_text(self.chown),
                self.chmod,
                self.link,
                opt_text(self.from),
            ),
        }
    }

    /// The checked fields, or the message naming the first unset required one.
    pub fn check_build(&mut self) -> (r: Result<CopyBuilder, String>)
        ensures
            *final(self) == *old(self),
            r is Ok <==> old(self).missing() is None,
            r matches Err(e) ==> Some(e@) == old(self).missing(),
            r matches Ok(b) ==> {
                &&& b.src@ == old(self).src->0@
                &&& b.dest@ == old(self).dest->0@
                &&& b.chown == old(self).chown
                &&& b.chmod == old(self).chmod
                &&& b.link == old(self).link
                &&& b.from == old(self).from
            },
    {
        let src = match &self.src {
            Some(v) => v.clone(),
            None => {
                return Err(String::from_str("src is required for CopyBuilder"));
            },
        };
        let dest = match &self.dest {
            Some(v) => v.clone(),
            None => {
                return Err(String::from_str("dest is required for CopyBuilder"));
            },
        };
        Ok(
            CopyBuilder {
                src,
                dest,
                chown: copy_opt(&self.chown),
                chmod: self.chmod,
                link: self.link,
                from: copy_opt(&self.from),
            },
        )
    }

    /// Checks the fields and formats them into a `COPY` instruction.
    pub fn build(&mut self) -> (r: Result<COPY, String>)
        ensures
            *final(self) == *old(self),
            outcome(r) == old(self).spec_build(),
            old(self).src is None ==> outcome(r) == rejected(
                "src is required for CopyBuilder"@,
            ),
            old(self).src is Some && old(self).dest is None ==> outcome(r) == rejected(
                "dest is required for CopyBuilder"@,
            ),
    {
        match self.check_build() {
            Err(e) => Err(e),
            Ok(b) => match b.value() {
                Err(e) => Err(e),
                Ok(v) => Ok(COPY { value: v }),
            },
        }
    }
}

/// The value of the shell form of `ENTRYPOINT`: `ENTRYPOINT <command> <param> ...`.
pub open spec fn entrypoint_value(
    command: Seq<char>,
    params: Option<Seq<Seq<char>>>,
) -> Result<Seq<char>, Seq<char>> {
    Ok(command + (if or_empty(params).len() == 0 {
        seq![]
    } else {
        " "@ + joined(or_empty(params), " "@)
    }))
}

/// Fields of a [`ENTRYPOINT`] instruction, every required one set.
pub struct EntrypointBuilder {
    pub command: String,
    pub params: Option<Vec<String>>,
}

impl EntrypointBuilder {
    /// An accumulator with every field unset.
    pub fn builder() -> (r: EntrypointBuilderInner)
        ensures
            r.command is None,
            r.params is None,
    {
        EntrypointBuilderInner { command: None, params: None }
    }

    /// What [`Self::value`] gives, as text.
    pub open spec fn spec_value(&self) -> Result<Seq<char>, Seq<char>> {
        entrypoint_value(
            self.command@,
            opt_texts(self.params),
        )
    }

    /// Formats the fields as the text that follows `ENTRYPOINT`.
    pub fn value(&self) -> (r: Result<String, String>)
        ensures
            outcome(r) == self.spec_value(),
    {
        let mut r = String::new();
        r.append(self.command.as_str());
        match &self.params {
            Some(ps) => {
                if ps.len() > 0 {
                    r.append(" ");
                    let params = join(ps, " ");
                    r.append(params.as_str());
                }
            },
            None => {},
        }
        assert(r@ =~= self.spec_value()->Ok_0);
        Ok(r)
    }
}

/// Accumulates the fields of a [`EntrypointBuilder`]; each is unset until its setter is called.
pub struct EntrypointBuilderInner {
    pub command: Option<String>,
    pub params: Option<Vec<String>>,
}

impl EntrypointBuilderInner {
    /// Sets `command`.
    pub fn command(&mut self, command: &str) -> (r: &mut Self)
        ensures
            opt_text(r.command) == Some(command@),
            r.params == old(self).params,
            *final(self) == *final(r),
    {
        self.command = Some(String::from_str(command));
        self
    }

    /// Sets `params` to the whole list, replacing what it held.
    pub fn params(&mut self, params: Vec<&str>) -> (r: &mut Self)
        ensures
            opt_texts(r.params) == Some(str_texts(params@)),
            r.command == old(self).command,
            *final(self) == *final(r),
    {
        self.params = Some(to_strings(&params));
        self
    }

    /// Appends one element to `params`, starting the list if it is unset.
    pub fn param(&mut self, param: &str) -> (r: &mut Self)
        ensures
            opt_texts(r.params) == appended(opt_texts(old(self).params), param@),
            r.command == old(self).command,
            *final(self) == *final(r),
    {
        let item = String::from_str(param);
        let mut list = match self.params.take() {
            Some(list) => list,
            None => Vec::new(),
        };
        let ghost before = list@;
        list.push(item);
        assert(texts(list@) =~= texts(before).push(param@));
        self.params = Some(list);
        self
    }

    /// The message naming the first unset required field; none when all are set.
    pub open spec fn missing(&self) -> Option<Seq<char>> {
        if self.command is None {
            Some("command is required for EntrypointBuilder"@)
        } else {
            None
        }
    }

    /// What [`Self::build`] gives, as text: the missing field, or the formatted value.
    pub open spec fn spec_build(&self) -> Result<Seq<char>, Seq<char>> {
        match self.missing() {
            Some(m) => Err(m),
            None => entrypoint_value(
                self.command->0@,
                opt_texts(self.params),
            ),
        }
    }

    /// The checked fields, or the message naming the first unset required one.
    pub fn check_build(&mut self) -> (r: Result<EntrypointBuilder, String>)
        ensures
            *final(self) == *old(self),
            r is Ok <==> old(self).missing() is None,
            r matches Err(e) ==> Some(e@) == old(self).missing(),
            r matches Ok(b) ==> {
                &&& b.command@ == old(self).command->0@
                &&& opt_texts(b.params) == opt_texts(old(self).params)
            },
    {
        let command = match &self.command {
            Some(v) => v.clone(),
            None => {
                return Err(String::from_str("command is required for EntrypointBuilder"));
            },
        };
        Ok(EntrypointBuilder { command, params: copy_opt_list(&self.params) })
    }

    /// Checks the fields and formats them into a `ENTRYPOINT` instruction.
    pub fn build(&mut self) -> (r: Result<ENTRYPOINT, String>)
        ensures
            *final(self) == *old(self),
            outcome(r) == old(self).spec_build(),
            old(self).command is None ==> outcome(r) == rejected(
                "command is required for EntrypointBuilder"@,
            ),
    {
        match self.check_build() {
            Err(e) => Err(e),
            Ok(b) => match b.value() {
                Err(e) => Err(e),
                Ok(v) => Ok(ENTRYPOINT { value: v }),
            },
        }
    }
}

/// The value of the exec form of `ENTRYPOINT`: `ENTRYPOINT ["<executable>", "<param>", ...]`.
pub open spec fn entrypoint_exec_value(
    executable: Seq<char>,
    params: Seq<Seq<char>>,
) -> Result<Seq<char>, Seq<char>> {
    Ok("[\""@ + executable + "\", \""@ + joined(params, "\", \""@) + "\"]"@)
}

/// Fields of a [`ENTRYPOINT`] instruction, every required one set.
pub struct EntrypointExecBuilder {
    pub executable: String,
    pub params: Vec<String>,
}

impl EntrypointExecBuilder {
    /// An accumulator with every field unset.
    pub fn builder() -> (r: EntrypointExecBuilderInner)
        ensures
            r.executable is None,
            r.params is None,
    {
        EntrypointExecBuilderInner { executable: None, params: None }
    }

    /// What [`Self::value`] gives, as text.
    pub open spec fn spec_value(&self) -> Result<Seq<char>, Seq<char>> {
        entrypoint_exec_value(
            self.executable@,
            texts(self.params@),
        )
    }

    /// Formats the fields as the text that follows `ENTRYPOINT`.
    pub fn value(&self) -> (r: Result<String, String>)
        ensures
            outcome(r) == self.spec_value(),
    {
        let mut r = String::new();
        r.append("[\"");
        r.append(self.executable.as_str());
        r.append("\", \"");
        let params = join(&self.params, "\", \"");
        r.append(params.as_str());
        r.append("\"]");
        assert(r@ =~= self.spec_value()->Ok_0);
        Ok(r)
    }
}

/// Accumulates the fields of a [`EntrypointExecBuilder`]; each is unset until its setter is called.
pub struct EntrypointExecBuilderInner {
    pub executable: Option<String>,
    pub params: Option<Vec<String>>,
}

impl EntrypointExecBuilderInner {
    /// Sets `executable`.
    pub fn executable(&mut self, executable: &str) -> (r: &mut Self)
        ensures
            opt_text(r.executable) == Some(executable@),
            r.params == old(self).params,
            *final(self) == *final(r),
    {
        self.executable = Some(String::from_str(executable));
        self
    }

    /// Sets `params` to the whole list, replacing what it held.
    pub fn params(&mut self, params: Vec<&str>) -> (r: &mut Self)
        ensures
            opt_texts(r.params) == Some(str_texts(params@)),
            r.executable == old(self).executable,
            *final(self) == *final(r),
    {
        self.params = Some(to_strings(&params));
        self
    }

    /// Appends one element to `params`, starting the list if it is unset.
    pub fn param(&mut self, param: &str) -> (r: &mut Self)
        ensures
            opt_texts(r.params) == appended(opt_texts(old(self).params), param@),
            r.executable == old(self).executable,
            *final(self) == *final(r),
    {
        let item = String::from_str(param);
        let mut list = match self.params.take() {
            Some(list) => list,
            None => Vec::new(),
        };
        let ghost before = list@;
        list.push(item);
        assert(texts(list@) =~= texts(before).push(param@));
        self.params = Some(list);
        self
    }

    /// The message naming the first unset required field; none when all are set.
    pub open spec fn missing(&self) -> Option<Seq<char>> {
        if self.executable is None {
            Some("executable is required for EntrypointExecBuilder"@)
        } else if self.params is None {
            Some("params is required for EntrypointExecBuilder"@)
        } else {
            None
        }
    }

    /// What [`Self::build`] gives, as text: the missing field, or the formatted value.
    pub open spec fn spec_build(&self) -> Result<Seq<char>, Seq<char>> {
        match self.missing() {
            Some(m) => Err(m),
            None => entrypoint_exec_value(
                self.executable->0@,
                texts(self.params->0@),
            ),
        }
    }

    /// The checked fields, or the message naming the first unset required one.
    pub fn check_build(&mut self) -> (r: Result<EntrypointExecBuilder, String>)
        ensures
            *final(self) == *old(self),
            r is Ok <==> old(self).missing() is None,
            r matches Err(e) ==> Some(e@) == old(self).missing(),
            r matches Ok(b) ==> {
                &&& b.executable@ == old(self).executable->0@
                &&& texts(b.params@) == texts(old(self).params->0@)
            },
    {
        let executable = match &self.executable {
            Some(v) => v.clone(),
            None => {
                return Err(String::from_str("executable is required for EntrypointExecBuilder"));
            },
        };
        let params = match &self.params {
            Some(v) => copy_list(v),
            None => {
                return Err(String::from_str("params is required for EntrypointExecBuilder"));
            },
        };
        Ok(EntrypointExecBuilder { executable, params })
    }

    /// Checks the fields and formats them into a `ENTRYPOINT` instruction.
    pub fn build(&mut self) -> (r: Result<ENTRYPOINT, String>)
        ensures
            *final(self) == *old(self),
            outcome(r) == old(self).spec_build(),
            old(self).executable is None ==> outcome(r) == rejected(
                "executable is required for EntrypointExecBuilder"@,
            ),
            old(self).executable is Some && old(self).params is None ==> outcome(r) == rejected(
                "params is required for EntrypointExecBuilder"@,
            ),
    {
        match self.check_build() {
            Err(e) => Err(e),
            Ok(b) => match b.value() {
                Err(e) => Err(e),
                Ok(v) => Ok(ENTRYPOINT { value: v }),
            },
        }
    }
}

/// The value of `VOLUME <path> ...`.
pub open spec fn volume_value(
    paths: Seq<Seq<char>>,
) -> Result<Seq<char>, Seq<char>> {
    Ok(joined(paths, " "@))
}

/// Fields of a [`VOLUME`] instruction, every required one set.
pub struct VolumeBuilder {
    pub paths: Vec<String>,
}

impl VolumeBuilder {
    /// An accumulator with every field unset.
    pub fn builder() -> (r: VolumeBuilderInner)
        ensures
            r.paths is None,
    {
        VolumeBuilderInner { paths: None }
    }

    /// What [`Self::value`] gives, as text.
    pub open spec fn spec_value(&self) -> Result<Seq<char>, Seq<char>> {
        volume_value(
            texts(self.paths@),
        )
    }

    /// Formats the fields as the text that follows `VOLUME`.
    pub fn value(&self) -> (r: Result<String, String>)
        ensures
            outcome(r) == self.spec_value(),
    {
        let r = join(&self.paths, " ");
        assert(r@ =~= self.spec_value()->Ok_0);
        Ok(r)
    }
}

/// Accumulates the fields of a [`VolumeBuilder`]; each is unset until its setter is called.
pub struct VolumeBuilderInner {
    pub paths: Option<Vec<String>>,
}

impl VolumeBuilderInner {
    /// Sets `paths` to the whole list, replacing what it held.
    pub fn paths(&mut self, paths: Vec<&str>) -> (r: &mut Self)
        ensures
            opt_texts(r.paths) == Some(str_texts(paths@)),
            *final(self) == *final(r),
    {
        self.paths = Some(to_strings(&paths));
        self
    }

    /// Appends one element to `paths`, starting the list if it is unset.
    pub fn path(&mut self, path: &str) -> (r: &mut Self)
        ensures
            opt_texts(r.paths) == appended(opt_texts(old(self).paths), path@),
            *final(self) == *final(r),
    {
        let item = String::from_str(path);
        let mut list = match self.paths.take() {
            Some(list) => list,
            None => Vec::new(),
        };
        let ghost before = list@;
        list.push(item);
        assert(texts(list@) =~= texts(before).push(path@));
        self.paths = Some(list);
        self
    }

    /// The message naming the first unset required field; none when all are set.
    pub open spec fn missing(&self) -> Option<Seq<char>> {
        if self.paths is None {
            Some("paths is required for VolumeBuilder"@)
        } else {
            None
        }
    }

    /// What [`Self::build`] gives, as text: the missing field, or the formatted value.
    pub open spec fn spec_build(&self) -> Result<Seq<char>, Seq<char>> {
        match self.missing() {
            Some(m) => Err(m),
            None => volume_value(
                texts(self.paths->0@),
            ),
        }
    }

    /// The checked fields, or the message naming the first unset required one.
    pub fn check_build(&mut self) -> (r: Result<VolumeBuilder, String>)
        ensures
            *final(self) == *old(self),
            r is Ok <==> old(self).missing() is None,
            r matches Err(e) ==> Some(e@) == old(self).missing(),
            r matches Ok(b) ==> {
                &&& texts(b.paths@) == texts(old(self).paths->0@)
            },
    {
        let paths = match &self.paths {
            Some(v) => copy_list(v),
            None => {
                return Err(String::from_str("paths is required for VolumeBuilder"));
            },
        };
        Ok(VolumeBuilder { paths })
    }

    /// Checks the fields and formats them into a `VOLUME` instruction.
    pub fn build(&mut self) -> (r: Result<VOLUME, String>)
        ensures
            *final(self) == *old(self),
            outcome(r) == old(self).spec_build(),
            old(self).paths is None ==> outcome(r) == rejected(
                "paths is required for VolumeBuilder"@,
            ),
    {
        match self.check_build() {
            Err(e) => Err(e),
            Ok(b) => match b.value() {
                Err(e) => Err(e),
                Ok(v) => Ok(VOLUME { value: v }),
            },
        }
    }
}

/// The value of `USER <user>[:<group>]`.
pub open spec fn user_value(
    user: Seq<char>,
    group: Option<Seq<char>>,
) -> Result<Seq<char>, Seq<char>> {
    Ok(user + affix(group, ":"@, ""@))
}

/// Fields of a [`USER`] instruction, every required one set.
pub struct UserBuilder {
    pub user: String,
    pub group: Option<String>,
}

impl UserBuilder {
    /// An accumulator with every field unset.
    pub fn builder() -> (r: UserBuilderInner)
        ensures
            r.user is None,
            r.group is None,
    {
        UserBuilderInner { user: None, group: None }
    }

    /// What [`Self::value`] gives, as text.
    pub open spec fn spec_value(&self) -> Result<Seq<char>, Seq<char>> {
        user_value(
            self.user@,
            opt_text(self.group),
        )
    }

    /// Formats the fields as the text that follows `USER`.
    pub fn value(&self) -> (r: Result<String, String>)
        ensures
            outcome(r) == self.spec_value(),
    {
        let mut r = String::new();
        r.append(self.user.as_str());
        push_affixed(&mut r, &self.group, ":", "");
        assert(r@ =~= self.spec_value()->Ok_0);
        Ok(r)
    }
}

/// Accumulates the fields of a [`UserBuilder`]; each is unset until its setter is called.
pub struct UserBuilderInner {
    pub user: Option<String>,
    pub group: Option<String>,
}

impl UserBuilderInner {
    /// Sets `user`.
    pub fn user(&mut self, user: &str) -> (r: &mut Self)
        ensures
            opt_text(r.user) == Some(user@),
            r.group == old(self).group,
            *final(self) == *final(r),
    {
        self.user = Some(String::from_str(user));
        self
    }

    /// Sets `group`.
    pub fn group(&mut self, group: &str) -> (r: &mut Self)
        ensures
            opt_text(r.group) == Some(group@),
            r.user == old(self).user,
            *final(self) == *final(r),
    {
        self.group = Some(String::from_str(group));
        self
    }

    /// The message naming the first unset required field; none when all are set.
    pub open spec fn missing(&self) -> Option<Seq<char>> {
        if self.user is None {
            Some("user is required for UserBuilder"@)
        } else {
            None
        }
    }

    /// What [`Self::build`] gives, as text: the missing field, or the formatted value.
    pub open spec fn spec_build(&self) -> Result<Seq<char>, Seq<char>> {
        match self.missing() {
            Some(m) => Err(m),
            None => user_value(
                self.user->0@,
                opt_text(self.group),
            ),
        }
    }

    /// The checked fields, or the message naming the first unset required one.
    pub fn check_build(&mut self) -> (r: Result<UserBuilder, String>)
        ensures
            *final(self) == *old(self),
            r is Ok <==> old(self).missing() is None,
            r matches Err(e) ==> Some(e@) == old(self).missing(),
            r matches Ok(b) ==> {
                &&& b.user@ == old(self).user->0@
                &&& b.group == old(self).group
            },
    {
        let user = match &self.user {
            Some(v) => v.clone(),
            None => {
                return Err(String::from_str("user is required for UserBuilder"));
            },
        };
        Ok(UserBuilder { user, group: copy_opt(&self.group) })
    }

    /// Checks the fields and formats them into a `USER` instruction.
    pub fn build(&mut self) -> (r: Result<USER, String>)
        ensures
            *final(self) == *old(self),
            outcome(r) == old(self).spec_build(),
            old(self).user is None ==> outcome(r) == rejected(
                "user is required for UserBuilder"@,
            ),
    {
        match self.check_build() {
            Err(e) => Err(e),
            Ok(b) => match b.value() {
                Err(e) => Err(e),
                Ok(v) => Ok(USER { value: v }),
            },
        }
    }
}

/// The value of `WORKDIR <path>`.
pub open spec fn workdir_value(
    path: Seq<char>,
) -> Result<Seq<char>, Seq<char>> {
    Ok(path)
}

/// Fields of a [`WORKDIR`] instruction, every required one set.
pub struct WorkdirBuilder {
    pub path: String,
}

impl WorkdirBuilder {
    /// An accumulator with every field unset.
    pub fn builder() -> (r: WorkdirBuilderInner)
        ensures
            r.path is None,
    {
        WorkdirBuilderInner { path: None }
    }

    /// What [`Self::value`] gives, as text.
    pub open spec fn spec_value(&self) -> Result<Seq<char>, Seq<char>> {
        workdir_value(
            self.path@,
        )
    }

    /// Formats the fields as the text that follows `WORKDIR`.
    pub fn value(&self) -> (r: Result<String, String>)
        ensures
            outcome(r) == self.spec_value(),
    {
        let r = self.path.clone();
        assert(r@ =~= self.spec_value()->Ok_0);
        Ok(r)
    }
}

/// Accumulates the fields of a [`WorkdirBuilder`]; each is unset until its setter is called.
pub struct WorkdirBuilderInner {
    pub path: Option<String>,
}

impl WorkdirBuilderInner {
    /// Sets `path`.
    pub fn path(&mut self, path: &str) -> (r: &mut Self)
        ensures
            opt_text(r.path) == Some(path@),
            *final(self) == *final(r),
    {
        self.path = Some(String::from_str(path));
        self
    }

    /// The message naming the first unset required field; none when all are set.
    pub open spec fn missing(&self) -> Option<Seq<char>> {
        if self.path is None {
            Some("path is required for WorkdirBuilder"@)
        } else {
            None
        }
    }

    /// What [`Self::build`] gives, as text: the missing field, or the formatted value.
    pub open spec fn spec_build(&self) -> Result<Seq<char>, Seq<char>> {
        match self.missing() {
            Some(m) => Err(m),
            None => workdir_value(
                self.path->0@,
            ),
        }
    }

    /// The checked fields, or the message naming the first unset required one.
    pub fn check_build(&mut self) -> (r: Result<WorkdirBuilder, String>)
        ensures
            *final(self) == *old(self),
            r is Ok <==> old(self).missing() is None,
            r matches Err(e) ==> Some(e@) == old(self).missing(),
            r matches Ok(b) ==> {
                &&& b.path@ == old(self).path->0@
            },
    {
        let path = match &self.path {
            Some(v) => v.clone(),
            None => {
                return Err(String::from_str("path is required for WorkdirBuilder"));
            },
        };
        Ok(WorkdirBuilder { path })
    }

    /// Checks the fields and formats them into a `WORKDIR` instruction.
    pub fn build(&mut self) -> (r: Result<WORKDIR, String>)
        ensures
            *final(self) == *old(self),
            outcome(r) == old(self).spec_build(),
            old(self).path is None ==> outcome(r) == rejected(
                "path is required for WorkdirBuilder"@,
            ),
    {
        match self.check_build() {
            Err(e) => Err(e),
            Ok(b) => match b.value() {
                Err(e) => Err(e),
                Ok(v) => Ok(WORKDIR { value: v }),
            },
        }
    }
}

/// The value of `ARG <name>[=<value>]`.
pub open spec fn arg_value(
    name: Seq<char>,
    value: Option<Seq<char>>,
) -> Result<Seq<char>, Seq<char>> {
    Ok(name + affix(value, "="@, ""@))
}

/// Fields of a [`ARG`] instruction, every required one set.
pub struct ArgBuilder {
    pub name: String,
    pub value: Option<String>,
}

impl ArgBuilder {
    /// An accumulator with every field unset.
    pub fn builder() -> (r: ArgBuilderInner)
        ensures
            r.name is None,
            r.value is None,
    {
        ArgBuilderInner { name: None, value: None }
    }

    /// What [`Self::value`] gives, as text.
    pub open spec fn spec_value(&self) -> Result<Seq<char>, Seq<char>> {
        arg_value(
            self.name@,
            opt_text(self.value),
        )
    }

    /// Formats the fields as the text that follows `ARG`.
    pub fn value(&self) -> (r: Result<String, String>)
        ensures
            outcome(r) == self.spec_value(),
    {
        let mut r = String::new();
        r.append(self.name.as_str());
        push_affixed(&mut r, &self.value, "=", "");
        assert(r@ =~= self.spec_value()->Ok_0);
        Ok(r)
    }
}

/// Accumulates the fields of a [`ArgBuilder`]; each is unset until its setter is called.
pub struct ArgBuilderInner {
    pub name: Option<String>,
    pub value: Option<String>,
}

impl ArgBuilderInner {
    /// Sets `name`.
    pub fn name(&mut self, name: &str) -> (r: &mut Self)
        ensures
            opt_text(r.name) == Some(name@),
            r.value == old(self).value,
            *final(self) == *final(r),
    {
        self.name = Some(String::from_str(name));
        self
    }

    /// Sets `value`.
    pub fn value(&mut self, value: &str) -> (r: &mut Self)
        ensures
            opt_text(r.value) == Some(value@),
            r.name == old(self).name,
            *final(self) == *final(r),
    {
        self.value = Some(String::from_str(value));
        self
    }

    /// The message naming the first unset required field; none when all are set.
    pub open spec fn missing(&self) -> Option<Seq<char>> {
        if self.name is None {
            Some("name is required for ArgBuilder"@)
        } else {
            None
        }
    }

    /// What [`Self::build`] gives, as text: the missing field, or the formatted value.
    pub open spec fn spec_build(&self) -> Result<Seq<char>, Seq<char>> {
        match self.missing() {
            Some(m) => Err(m),
            None => arg_value(
                self.name->0@,
                opt_text(self.value),
            ),
        }
    }

    /// The checked fields, or the message naming the first unset required one.
    pub fn check_build(&mut self) -> (r: Result<ArgBuilder, String>)
        ensures
            *final(self) == *old(self),
            r is Ok <==> old(self).missing() is None,
            r matches Err(e) ==> Some(e@) == old(self).missing(),
            r matches Ok(b) ==> {
                &&& b.name@ == old(self).name->0@
                &&& b.value == old(self).value
            },
    {
        let name = match &self.name {
            Some(v) => v.clone(),
            None => {
                return Err(String::from_str("name is required for ArgBuilder"));
            },
        };
        Ok(ArgBuilder { name, value: copy_opt(&self.value) })
    }

    /// Checks the fields and formats them into a `ARG` instruction.
    pub fn build(&mut self) -> (r: Result<ARG, String>)
        ensures
            *final(self) == *old(self),
            outcome(r) == old(self).spec_build(),
            old(self).name is None ==> outcome(r) == rejected(
                "name is required for ArgBuilder"@,
            ),
    {
        match self.check_build() {
            Err(e) => Err(e),
            Ok(b) => match b.value() {
                Err(e) => Err(e),
                Ok(v) => Ok(ARG { value: v }),
            },
        }
    }
}

/// The value of `ONBUILD <instruction>`; the instruction may be neither `ONBUILD` nor `FROM`.
pub open spec fn onbuild_value(
    instruction: Instruction,
) -> Result<Seq<char>, Seq<char>> {
    match instruction {
        Instruction::ONBUILD(_) => Err(
            "Chaining ONBUILD instructions using ONBUILD ONBUILD isn’t allowed"@,
        ),
        Instruction::FROM(_) => Err("ONBUILD instruction may not trigger FROM instruction"@),
        _ => Ok(instruction.line()),
    }
}

/// Fields of a [`ONBUILD`] instruction, every required one set.
pub struct OnbuildBuilder {
    pub instruction: Instruction,
}

impl OnbuildBuilder {
    /// An accumulator with every field unset.
    pub fn builder() -> (r: OnbuildBuilderInner)
        ensures
            r.instruction is None,
    {
        OnbuildBuilderInner { instruction: None }
    }

    /// What [`Self::value`] gives, as text.
    pub open spec fn spec_value(&self) -> Result<Seq<char>, Seq<char>> {
        onbuild_value(
            self.instruction,
        )
    }

    /// Formats the fields as the text that follows `ONBUILD`.
    pub fn value(&self) -> (r: Result<String, String>)
        ensures
            outcome(r) == self.spec_value(),
    {
        match &self.instruction {
            Instruction::ONBUILD(_) => {
                return Err(
                    String::from_str("Chaining ONBUILD instructions using ONBUILD ONBUILD isn’t allowed"),
                );
            },
            Instruction::FROM(_) => {
                return Err(String::from_str("ONBUILD instruction may not trigger FROM instruction"));
            },
            _ => {},
        }
        let r = self.instruction.to_string();
        assert(r@ =~= self.spec_value()->Ok_0);
        Ok(r)
    }
}

/// Accumulates the fields of a [`OnbuildBuilder`]; each is unset until its setter is called.
pub struct OnbuildBuilderInner {
    pub instruction: Option<Instruction>,
}

impl OnbuildBuilderInner {
    /// Sets `instruction`.
    pub fn instruction(&mut self, instruction: Instruction) -> (r: &mut Self)
        ensures
            r.instruction == Some(instruction),
            *final(self) == *final(r),
    {
        self.instruction = Some(instruction);
        self
    }

    /// The message naming the first unset required field; none when all are set.
    pub open spec fn missing(&self) -> Option<Seq<char>> {
        if self.instruction is None {
            Some("instruction is required for OnbuildBuilder"@)
        } else {
            None
        }
    }

    /// What [`Self::build`] gives, as text: the missing field, or the formatted value.
    pub open spec fn spec_build(&self) -> Result<Seq<char>, Seq<char>> {
        match self.missing() {
            Some(m) => Err(m),
            None => onbuild_value(
                self.instruction->0,
            ),
        }
    }

    /// The checked fields, or the message naming the first unset required one.
    pub fn check_build(&mut self) -> (r: Result<OnbuildBuilder, String>)
        ensures
            *final(self) == *old(self),
            r is Ok <==> old(self).missing() is None,
            r matches Err(e) ==> Some(e@) == old(self).missing(),
            r matches Ok(b) ==> {
                &&& b.instruction == old(self).instruction->0
            },
    {
        let instruction = match &self.instruction {
            Some(v) => v.clone(),
            None => {
                return Err(String::from_str("instruction is required for OnbuildBuilder"));
            },
        };
        Ok(OnbuildBuilder { instruction })
    }

    /// Checks the fields and formats them into a `ONBUILD` instruction.
    pub fn build(&mut self) -> (r: Result<ONBUILD, String>)
        ensures
            *final(self) == *old(self),
            outcome(r) == old(self).spec_build(),
            old(self).instruction is None ==> outcome(r) == rejected(
                "instruction is required for OnbuildBuilder"@,
            ),
            old(self).instruction matches Some(Instruction::ONBUILD(_)) ==> outcome(r) == rejected(
                "Chaining ONBUILD instructions using ONBUILD ONBUILD isn’t allowed"@,
            ),
            old(self).instruction matches Some(Instruction::FROM(_)) ==> outcome(r) == rejected(
                "ONBUILD instruction may not trigger FROM instruction"@,
            ),
    {
        match self.check_build() {
            Err(e) => Err(e),
            Ok(b) => match b.value() {
                Err(e) => Err(e),
                Ok(v) => Ok(ONBUILD { value: v }),
            },
        }
    }
}

/// The value of `STOPSIGNAL <signal>`.
pub open spec fn stopsignal_value(
    signal: Seq<char>,
) -> Result<Seq<char>, Seq<char>> {
    Ok(signal)
}

/// Fields of a [`STOPSIGNAL`] instruction, every required one set.
pub struct StopsignalBuilder {
    pub signal: String,
}

impl StopsignalBuilder {
    /// An accumulator with every field unset.
    pub fn builder() -> (r: StopsignalBuilderInner)
        ensures
            r.signal is None,
    {
        StopsignalBuilderInner { signal: None }
    }

    /// What [`Self::value`] gives, as text.
    pub open spec fn spec_value(&self) -> Result<Seq<char>, Seq<char>> {
        stopsignal_value(
            self.signal@,
        )
    }

    /// Formats the fields as the text that follows `STOPSIGNAL`.
    pub fn value(&self) -> (r: Result<String, String>)
        ensures
            outcome(r) == self.spec_value(),
    {
        let r = self.signal.clone();
        assert(r@ =~= self.spec_value()->Ok_0);
        Ok(r)
    }
}

/// Accumulates the fields of a [`StopsignalBuilder`]; each is unset until its setter is called.
pub struct StopsignalBuilderInner {
    pub signal: Option<String>,
}

impl StopsignalBuilderInner {
    /// Sets `signal`.
    pub fn signal(&mut self, signal: &str) -> (r: &mut Self)
        ensures
            opt_text(r.signal) == Some(signal@),
            *final(self) == *final(r),
    {
        self.signal = Some(String::from_str(signal));
        self
    }

    /// The message naming the first unset required field; none when all are set.
    pub open spec fn missing(&self) -> Option<Seq<char>> {
        if self.signal is None {
            Some("signal is required for StopsignalBuilder"@)
        } else {
            None
        }
    }

    /// What [`Self::build`] gives, as text: the missing field, or the formatted value.
    pub open spec fn spec_build(&self) -> Result<Seq<char>, Seq<char>> {
        match self.missing() {
            Some(m) => Err(m),
            None => stopsignal_value(
                self.signal->0@,
            ),
        }
    }

    /// The checked fields, or the message naming the first unset required one.
    pub fn check_build(&mut self) -> (r: Result<StopsignalBuilder, String>)
        ensures
            *final(self) == *old(self),
            r is Ok <==> old(self).missing() is None,
            r matches Err(e) ==> Some(e@) == old(self).missing(),
            r matches Ok(b) ==> {
                &&& b.signal@ == old(self).signal->0@
            },
    {
        let signal = match &self.signal {
            Some(v) => v.clone(),
            None => {
                return Err(String::from_str("signal is required for StopsignalBuilder"));
            },
        };
        Ok(StopsignalBuilder { signal })
    }

    /// Checks the fields and formats them into a `STOPSIGNAL` instruction.
    pub fn build(&mut self) -> (r: Result<STOPSIGNAL, String>)
        ensures
            *final(self) == *old(self),
            outcome(r) == old(self).spec_build(),
            old(self).signal is None ==> outcome(r) == rejected(
                "signal is required for StopsignalBuilder"@,
            ),
    {
        match self.check_build() {
            Err(e) => Err(e),
            Ok(b) => match b.value() {
                Err(e) => Err(e),
                Ok(v) => Ok(STOPSIGNAL { value: v }),
            },
        }
    }
}

/// The value of `HEALTHCHECK [--interal=<n>] [--timeout=<n>] [--start-period=<n>]
/// [--retries=<n>] CMD <command>`.
pub open spec fn healthcheck_value(
    cmd: CMD,
    interval: Option<i32>,
    timeout: Option<i32>,
    start_period: Option<i32>,
    retries: Option<i32>,
) -> Result<Seq<char>, Seq<char>> {
    Ok(affix(opt_signed_decimal(interval), "--interal="@, " "@) + affix(
        opt_signed_decimal(timeout),
        "--timeout="@,
        " "@,
    ) + affix(opt_signed_decimal(start_period), "--start-period="@, " "@) + affix(
        opt_signed_decimal(retries),
        "--retries="@,
        " "@,
    ) + cmd.line())
}

/// Fields of a [`HEALTHCHECK`] instruction, every required one set.
pub struct HealthcheckBuilder {
    pub cmd: CMD,
    pub interval: Option<i32>,
    pub timeout: Option<i32>,
    pub start_period: Option<i32>,
    pub retries: Option<i32>,
}

impl HealthcheckBuilder {
    /// An accumulator with every field unset.
    pub fn builder() -> (r: HealthcheckBuilderInner)
        ensures
            r.cmd is None,
            r.interval is None,
            r.timeout is None,
            r.start_period is None,
            r.retries is None,
    {
        HealthcheckBuilderInner {
            cmd: None,
            interval: None,
            timeout: None,
            start_period: None,
            retries: None,
        }
    }

    /// What [`Self::value`] gives, as text.
    pub open spec fn spec_value(&self) -> Result<Seq<char>, Seq<char>> {
        healthcheck_value(
            self.cmd,
            self.interval,
            self.timeout,
            self.start_period,
            self.retries,
        )
    }

    /// Formats the fields as the text that follows `HEALTHCHECK`.
    pub fn value(&self) -> (r: Result<String, String>)
        ensures
            outcome(r) == self.spec_value(),
    {
        let mut r = String::new();
        push_affixed_signed_decimal(&mut r, self.interval, "--interal=", " ");
        push_affixed_signed_decimal(&mut r, self.timeout, "--timeout=", " ");
        push_affixed_signed_decimal(&mut r, self.start_period, "--start-period=", " ");
        push_affixed_signed_decimal(&mut r, self.retries, "--retries=", " ");
        let cmd = self.cmd.to_string();
        r.append(cmd.as_str());
        assert(r@ =~= self.spec_value()->Ok_0);
        Ok(r)
    }
}

/// Accumulates the fields of a [`HealthcheckBuilder`]; each is unset until its setter is called.
pub struct HealthcheckBuilderInner {
    pub cmd: Option<CMD>,
    pub interval: Option<i32>,
    pub timeout: Option<i32>,
    pub start_period: Option<i32>,
    pub retries: Option<i32>,
}

impl HealthcheckBuilderInner {
    /// Sets `cmd`.
    pub fn cmd(&mut self, cmd: CMD) -> (r: &mut Self)
        ensures
            r.cmd == Some(cmd),
            r.interval == old(self).interval,
            r.timeout == old(self).timeout,
            r.start_period == old(self).start_period,
            r.retries == old(self).retries,
            *final(self) == *final(r),
    {
        self.cmd = Some(cmd);
        self
    }

    /// Sets `interval`.
    pub fn interval(&mut self, interval: i32) -> (r: &mut Self)
        ensures
            r.interval == Some(interval),
            r.cmd == old(self).cmd,
            r.timeout == old(self).timeout,
            r.start_period == old(self).start_period,
            r.retries == old(self).retries,
            *final(self) == *final(r),
    {
        self.interval = Some(interval);
        self
    }

    /// Sets `timeout`.
    pub fn timeout(&mut self, timeout: i32) -> (r: &mut Self)
        ensures
            r.timeout == Some(timeout),
            r.cmd == old(self).cmd,
            r.interval == old(self).interval,
            r.start_period == old(self).start_period,
            r.retries == old(self).retries,
            *final(self) == *final(r),
    {
        self.timeout = Some(timeout);
        self
    }

    /// Sets `start_period`.
    pub fn start_period(&mut self, start_period: i32) -> (r: &mut Self)
        ensures
            r.start_period == Some(start_period),
            r.cmd == old(self).cmd,
            r.interval == old(self).interval,
            r.timeout == old(self).timeout,
            r.retries == old(self).retries,
            *final(self) == *final(r),
    {
        self.start_period = Some(start_period);
        self
    }

    /// Sets `retries`.
    pub fn retries(&mut self, retries: i32) -> (r: &mut Self)
        ensures
            r.retries == Some(retries),
            r.cmd == old(self).cmd,
            r.interval == old(self).interval,
            r.timeout == old(self).timeout,
            r.start_period == old(self).start_period,
            *final(self) == *final(r),
    {
        self.retries = Some(retries);
        self
    }

    /// The message naming the first unset required field; none when all are set.
    pub open spec fn missing(&self) -> Option<Seq<char>> {
        if self.cmd is None {
            Some("cmd is required for HealthcheckBuilder"@)
        } else {
            None
        }
    }

    /// What [`Self::build`] gives, as text: the missing field, or the formatted value.
    pub open spec fn spec_build(&self) -> Result<Seq<char>, Seq<char>> {
        match self.missing() {
            Some(m) => Err(m),
            None => healthcheck_value(
                self.cmd->0,
                self.interval,
                self.timeout,
                self.start_period,
                self.retries,
            ),
        }
    }

    /// The checked fields, or the message naming the first unset required one.
    pub fn check_build(&mut self) -> (r: Result<HealthcheckBuilder, String>)
        ensures
            *final(self) == *old(self),
            r is Ok <==> old(self).missing() is None,
            r matches Err(e) ==> Some(e@) == old(self).missing(),
            r matches Ok(b) ==> {
                &&& b.cmd == old(self).cmd->0
                &&& b.interval == old(self).interval
                &&& b.timeout == old(self).timeout
                &&& b.start_period == old(self).start_period
                &&& b.retries == old(self).retries
            },
    {
        let cmd = match &self.cmd {
            Some(v) => v.clone(),
            None => {
                return Err(String::from_str("cmd is required for HealthcheckBuilder"));
            },
        };
        Ok(
            HealthcheckBuilder {
                cmd,
                interval: self.interval,
                timeout: self.timeout,
                start_period: self.start_period,
                retries: self.retries,
            },
        )
    }

    /// Checks the fields and formats them into a `HEALTHCHECK` instruction.
    pub fn build(&mut self) -> (r: Result<HEALTHCHECK, String>)
        ensures
            *final(self) == *old(self),
            outcome(r) == old(self).spec_build(),
            old(self).cmd is None ==> outcome(r) == rejected(
                "cmd is required for HealthcheckBuilder"@,
            ),
    {
        match self.check_build() {
            Err(e) => Err(e),
            Ok(b) => match b.value() {
                Err(e) => Err(e),
                Ok(v) => Ok(HEALTHCHECK { value: v }),
            },
        }
    }
}

/// The value of `SHELL ["<executable>", "<param>", ...]`.
pub open spec fn shell_value(
    executable: Seq<char>,
    params: Option<Seq<Seq<char>>>,
) -> Result<Seq<char>, Seq<char>> {
    Ok("[\""@ + executable + "\""@ + (match params {
        Some(ps) => ", \""@ + joined(ps, "\", \""@) + "\""@,
        None => seq![],
    }) + "]"@)
}

/// Fields of a [`SHELL`] instruction, every required one set.
pub struct ShellBuilder {
    pub executable: String,
    pub params: Option<Vec<String>>,
}

impl ShellBuilder {
    /// An accumulator with every field unset.
    pub fn builder() -> (r: ShellBuilderInner)
        ensures
            r.executable is None,
            r.params is None,
    {
        ShellBuilderInner { executable: None, params: None }
    }

    /// What [`Self::value`] gives, as text.
    pub open spec fn spec_value(&self) -> Result<Seq<char>, Seq<char>> {
        shell_value(
            self.executable@,
            opt_texts(self.params),
        )
    }

    /// Formats the fields as the text that follows `SHELL`.
    pub fn value(&self) -> (r: Result<String, String>)
        ensures
            outcome(r) == self.spec_value(),
    {
        let mut r = String::new();
        r.append("[\"");
        r.append(self.executable.as_str());
        r.append("\"");
        match &self.params {
            Some(ps) => {
                r.append(", \"");
                let params = join(ps, "\", \"");
                r.append(params.as_str());
                r.append("\"");
            },
            None => {},
        }
        r.append("]");
        assert(r@ =~= self.spec_value()->Ok_0);
        Ok(r)
    }
}

/// Accumulates the fields of a [`ShellBuilder`]; each is unset until its setter is called.
pub struct ShellBuilderInner {
    pub executable: Option<String>,
    pub params: Option<Vec<String>>,
}

impl ShellBuilderInner {
    /// Sets `executable`.
    pub fn executable(&mut self, executable: &str) -> (r: &mut Self)
        ensures
            opt_text(r.executable) == Some(executable@),
            r.params == old(self).params,
            *final(self) == *final(r),
    {
        self.executable = Some(String::from_str(executable));
        self
    }

    /// Sets `params` to the whole list, replacing what it held.
    pub fn params(&mut self, params: Vec<&str>) -> (r: &mut Self)
        ensures
            opt_texts(r.params) == Some(str_texts(params@)),
            r.executable == old(self).executable,
            *final(self) == *final(r),
    {
        self.params = Some(to_strings(&params));
        self
    }

    /// Appends one element to `params`, starting the list if it is unset.
    pub fn param(&mut self, param: &str) -> (r: &mut Self)
        ensures
            opt_texts(r.params) == appended(opt_texts(old(self).params), param@),
            r.executable == old(self).executable,
            *final(self) == *final(r),
    {
        let item = String::from_str(param);
        let mut list = match self.params.take() {
            Some(list) => list,
            None => Vec::new(),
        };
        let ghost before = list@;
        list.push(item);
        assert(texts(list@) =~= texts(before).push(param@));
        self.params = Some(list);
        self
    }

    /// The message naming the first unset required field; none when all are set.
    pub open spec fn missing(&self) -> Option<Seq<char>> {
        if self.executable is None {
            Some("executable is required for ShellBuilder"@)
        } else {
            None
        }
    }

    /// What [`Self::build`] gives, as text: the missing field, or the formatted value.
    pub open spec fn spec_build(&self) -> Result<Seq<char>, Seq<char>> {
        match self.missing() {
            Some(m) => Err(m),
            None => shell_value(
                self.executable->0@,
                opt_texts(self.params),
            ),
        }
    }

    /// The checked fields, or the message naming the first unset required one.
    pub fn check_build(&mut self) -> (r: Result<ShellBuilder, String>)
        ensures
            *final(self) == *old(self),
            r is Ok <==> old(self).missing() is None,
            r matches Err(e) ==> Some(e@) == old(self).missing(),
            r matches Ok(b) ==> {
                &&& b.executable@ == old(self).executable->0@
                &&& opt_texts(b.params) == opt_texts(old(self).params)
            },
    {
        let executable = match &self.executable {
            Some(v) => v.clone(),
            None => {
                return Err(String::from_str("executable is required for ShellBuilder"));
            },
        };
        Ok(ShellBuilder { executable, params: copy_opt_list(&self.params) })
    }

    /// Checks the fields and formats them into a `SHELL` instruction.
    pub fn build(&mut self) -> (r: Result<SHELL, String>)
        ensures
            *final(self) == *old(self),
            outcome(r) == old(self).spec_build(),
            old(self).executable is None ==> outcome(r) == rejected(
                "executable is required for ShellBuilder"@,
            ),
    {
        match self.check_build() {
            Err(e) => Err(e),
            Ok(b) => match b.value() {
                Err(e) => Err(e),
                Ok(v) => Ok(SHELL { value: v }),
            },
        }
    }
}

/// The list that appending each element of `xs` in turn to `o` leaves.
pub open spec fn appended_all(o: Option<Seq<Seq<char>>>, xs: Seq<Seq<char>>) -> Option<Seq<Seq<char>>>
    decreases xs.len(),
{
    if xs.len() == 0 {
        o
    } else {
        appended(appended_all(o, xs.drop_last()), xs.last())
    }
}

/// Appending the elements of `xs` one at a time to an unset list leaves the list `xs`, as setting
/// it whole would, once there is at least one element; with none the list stays unset.
pub proof fn lemma_appended_all(xs: Seq<Seq<char>>)
    ensures
        xs.len() > 0 ==> appended_all(None, xs) == Some(xs),
        xs.len() == 0 ==> appended_all(None, xs) is None,
    decreases xs.len(),
{
    if xs.len() > 1 {
        lemma_appended_all(xs.drop_last());
        assert(xs.drop_last().push(xs.last()) =~= xs);
    } else if xs.len() == 1 {
        assert(appended_all(None, xs.drop_last()) is None);
        assert(Seq::<Seq<char>>::empty().push(xs.last()) =~= xs);
    }
}

/// Round trip: building an instruction from fields that format to `s` gives the instruction
/// that `from(s)` gives, and so renders to the same line.
pub proof fn lemma_built_matches_direct<I: Keyword>(s: Seq<char>, direct: I, built: Result<I, String>)
    requires
        direct@ == s,
        outcome(built) == Ok::<Seq<char>, Seq<char>>(s),
    ensures
        built is Ok,
        built->Ok_0@ == direct@,
        keyword_line(built->Ok_0) == keyword_line(direct),
{
}

/// Appending the elements of `xs` one at a time to an unset `commands` of a `RunBuilder`, or setting
/// `commands` to `xs` at once, builds the same instruction, once there is at least one element.
pub proof fn lemma_run_each_matches_bulk(each: RunBuilderInner, bulk: RunBuilderInner, xs: Seq<Seq<char>>)
    requires
        opt_texts(each.commands) == appended_all(None, xs),
        opt_texts(bulk.commands) == Some(xs),
        xs.len() > 0,
    ensures
        each.spec_build() == bulk.spec_build(),
{
    lemma_appended_all(xs);
}

/// Appending the elements of `xs` one at a time to an unset `params` of a `RunExecBuilder`, or setting
/// `params` to `xs` at once, builds the same instruction,, for any number of elements.
pub proof fn lemma_run_exec_each_matches_bulk(each: RunExecBuilderInner, bulk: RunExecBuilderInner, xs: Seq<Seq<char>>)
    requires
        opt_texts(each.params) == appended_all(None, xs),
        opt_texts(bulk.params) == Some(xs),
        each.executable == bulk.executable,
    ensures
        each.spec_build() == bulk.spec_build(),
{
    lemma_appended_all(xs);
}

/// Appending the elements of `xs` one at a time to an unset `params` of a `CmdBuilder`, or setting
/// `params` to `xs` at once, builds the same instruction,, for any number of elements.
pub proof fn lemma_cmd_each_matches_bulk(each: CmdBuilderInner, bulk: CmdBuilderInner, xs: Seq<Seq<char>>)
    requires
        opt_texts(each.params) == appended_all(None, xs),
        opt_texts(bulk.params) == Some(xs),
        each.command == bulk.command,
    ensures
        each.spec_build() == bulk.spec_build(),
{
    lemma_appended_all(xs);
}

/// Appending the elements of `xs` one at a time to an unset `params` of a `CmdExecBuilder`, or setting
/// `params` to `xs` at once, builds the same instruction, once there is an element or an executable.
pub proof fn lemma_cmd_exec_each_matches_bulk(each: CmdExecBuilderInner, bulk: CmdExecBuilderInner, xs: Seq<Seq<char>>)
    requires
        opt_texts(each.params) == appended_all(None, xs),
        opt_texts(bulk.params) == Some(xs),
        each.executable == bulk.executable,
        xs.len() > 0 || each.executable is Some,
    ensures
        each.spec_build() == bulk.spec_build(),
{
    lemma_appended_all(xs);
}

/// Appending the elements of `xs` one at a time to an unset `params` of a `EntrypointBuilder`, or setting
/// `params` to `xs` at once, builds the same instruction,, for any number of elements.
pub proof fn lemma_entrypoint_each_matches_bulk(each: EntrypointBuilderInner, bulk: EntrypointBuilderInner, xs: Seq<Seq<char>>)
    requires
        opt_texts(each.params) == appended_all(None, xs),
        opt_texts(bulk.params) == Some(xs),
        each.command == bulk.command,
    ensures
        each.spec_build() == bulk.spec_build(),
{
    lemma_appended_all(xs);
}

/// Appending the elements of `xs` one at a time to an unset `params` of a `EntrypointExecBuilder`, or setting
/// `params` to `xs` at once, builds the same instruction, once there is at least one element.
pub proof fn lemma_entrypoint_exec_each_matches_bulk(each: EntrypointExecBuilderInner, bulk: EntrypointExecBuilderInner, xs: Seq<Seq<char>>)
    requires
        opt_texts(each.params) == appended_all(None, xs),
        opt_texts(bulk.params) == Some(xs),
        each.executable == bulk.executable,
        xs.len() > 0,
    ensures
        each.spec_build() == bulk.spec_build(),
{
    lemma_appended_all(xs);
}

/// Appending the elements of `xs` one at a time to an unset `paths` of a `VolumeBuilder`, or setting
/// `paths` to `xs` at once, builds the same instruction, once there is at least one element.
pub proof fn lemma_volume_each_matches_bulk(each: VolumeBuilderInner, bulk: VolumeBuilderInner, xs: Seq<Seq<char>>)
    requires
        opt_texts(each.paths) == appended_all(None, xs),
        opt_texts(bulk.paths) == Some(xs),
        xs.len() > 0,
    ensures
        each.spec_build() == bulk.spec_build(),
{
    lemma_appended_all(xs);
}

/// Appending the elements of `xs` one at a time to an unset `params` of a `ShellBuilder`, or setting
/// `params` to `xs` at once, builds the same instruction, once there is at least one element.
pub proof fn lemma_shell_each_matches_bulk(each: ShellBuilderInner, bulk: ShellBuilderInner, xs: Seq<Seq<char>>)
    requires
        opt_texts(each.params) == appended_all(None, xs),
        opt_texts(bulk.params) == Some(xs),
        each.executable == bulk.executable,
        xs.len() > 0,
    ensures
        each.spec_build() == bulk.spec_build(),
{
    lemma_appended_all(xs);
}

} // verus!
