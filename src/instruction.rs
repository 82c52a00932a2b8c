//! Dockerfile instructions.
//!
//! Each keyword has a type of its own holding the text that follows the keyword. Such a value
//! is made either from text that is already formatted (`FROM::from("rust:1.70 AS build")`) or
//! by the matching builder of the `instruction_builder` module. [`Instruction`] gathers them all,
//! together with raw lines that carry no keyword.

use vstd::prelude::*;
use vstd::string::*;

verus! {

/// An instruction of one keyword: it renders as a fixed prefix, the keyword and a space, followed
/// by its value.
pub trait Keyword: View<V = Seq<char>> {
    /// The keyword and the space after it.
    spec fn prefix() -> Seq<char>;
}

/// The line an instruction of one keyword renders to.
pub open spec fn keyword_line<I: Keyword>(i: I) -> Seq<char> {
    I::prefix() + i@
}

/// The `FROM` instruction; `value` is the text after the keyword.
#[derive(Debug, PartialEq, Eq)]
pub struct FROM {
    pub value: String,
}

impl View for FROM {
    type V = Seq<char>;

    open spec fn view(&self) -> Seq<char> {
        self.value@
    }
}

impl Keyword for FROM {
    open spec fn prefix() -> Seq<char> {
        "FROM "@
    }
}

impl FROM {
    /// The rendered line: the keyword, one space, then the value.
    pub open spec fn line(&self) -> Seq<char> {
        keyword_line(*self)
    }

    /// Wraps text already formatted as the arguments of `FROM`; nothing is checked.
    pub fn from(value: &str) -> (r: Self)
        ensures
            r@ == value@,
    {
        FROM { value: String::from_str(value) }
    }

    /// Renders the instruction as one Dockerfile line.
    pub fn to_string(&self) -> (r: String)
        ensures
            r@ == self.line(),
    {
        let mut r = String::from_str("FROM ");
        r.append(self.value.as_str());
        r
    }
}

impl Clone for FROM {
    fn clone(&self) -> (r: Self)
        ensures
            r == *self,
    {
        FROM { value: self.value.clone() }
    }
}

impl From<FROM> for Instruction {
    fn from(instruction: FROM) -> Self {
        Instruction::FROM(instruction)
    }
}

impl vstd::std_specs::convert::FromSpecImpl<FROM> for Instruction {
    open spec fn obeys_from_spec() -> bool {
        true
    }

    open spec fn from_spec(v: FROM) -> Self {
        Instruction::FROM(v)
    }
}

/// The `ENV` instruction; `value` is the text after the keyword.
#[derive(Debug, PartialEq, Eq)]
pub struct ENV {
    pub value: String,
}

impl View for ENV {
    type V = Seq<char>;

    open spec fn view(&self) -> Seq<char> {
        self.value@
    }
}

impl Keyword for ENV {
    open spec fn prefix() -> Seq<char> {
        "ENV "@
    }
}

impl ENV {
    /// The rendered line: the keyword, one space, then the value.
    pub open spec fn line(&self) -> Seq<char> {
        keyword_line(*self)
    }

    /// Wraps text already formatted as the arguments of `ENV`; nothing is checked.
    pub fn from(value: &str) -> (r: Self)
        ensures
            r@ == value@,
    {
        ENV { value: String::from_str(value) }
    }

    /// Renders the instruction as one Dockerfile line.
    pub fn to_string(&self) -> (r: String)
        ensures
            r@ == self.line(),
    {
        let mut r = String::from_str("ENV ");
        r.append(self.value.as_str());
        r
    }
}

impl Clone for ENV {
    fn clone(&self) -> (r: Self)
        ensures
            r == *self,
    {
        ENV { value: self.value.clone() }
    }
}

impl From<ENV> for Instruction {
    fn from(instruction: ENV) -> Self {
        Instruction::ENV(instruction)
    }
}

impl vstd::std_specs::convert::FromSpecImpl<ENV> for Instruction {
    open spec fn obeys_from_spec() -> bool {
        true
    }

    open spec fn from_spec(v: ENV) -> Self {
        Instruction::ENV(v)
    }
}

/// The `RUN` instruction; `value` is the text after the keyword.
#[derive(Debug, PartialEq, Eq)]
pub struct RUN {
    pub value: String,
}

impl View for RUN {
    type V = Seq<char>;

    open spec fn view(&self) -> Seq<char> {
        self.value@
    }
}

impl Keyword for RUN {
    open spec fn prefix() -> Seq<char> {
        "RUN "@
    }
}

impl RUN {
    /// The rendered line: the keyword, one space, then the value.
    pub open spec fn line(&self) -> Seq<char> {
        keyword_line(*self)
    }

    /// Wraps text already formatted as the arguments of `RUN`; nothing is checked.
    pub fn from(value: &str) -> (r: Self)
        ensures
            r@ == value@,
    {
        RUN { value: String::from_str(value) }
    }

    /// Renders the instruction as one Dockerfile line.
    pub fn to_string(&self) -> (r: String)
        ensures
            r@ == self.line(),
    {
        let mut r = String::from_str("RUN ");
        r.append(self.value.as_str());
        r
    }
}

impl Clone for RUN {
    fn clone(&self) -> (r: Self)
        ensures
            r == *self,
    {
        RUN { value: self.value.clone() }
    }
}

impl From<RUN> for Instruction {
    fn from(instruction: RUN) -> Self {
        Instruction::RUN(instruction)
    }
}

impl vstd::std_specs::convert::FromSpecImpl<RUN> for Instruction {
    open spec fn obeys_from_spec() -> bool {
        true
    }

    open spec fn from_spec(v: RUN) -> Self {
        Instruction::RUN(v)
    }
}

/// The `CMD` instruction; `value` is the text after the keyword.
#[derive(Debug, PartialEq, Eq)]
pub struct CMD {
    pub value: String,
}

impl View for CMD {
    type V = Seq<char>;

    open spec fn view(&self) -> Seq<char> {
        self.value@
    }
}

impl Keyword for CMD {
    open spec fn prefix() -> Seq<char> {
        "CMD "@
    }
}

impl CMD {
    /// The rendered line: the keyword, one space, then the value.
    pub open spec fn line(&self) -> Seq<char> {
        keyword_line(*self)
    }

    /// Wraps text already formatted as the arguments of `CMD`; nothing is checked.
    pub fn from(value: &str) -> (r: Self)
        ensures
            r@ == value@,
    {
        CMD { value: String::from_str(value) }
    }

    /// Renders the instruction as one Dockerfile line.
    pub fn to_string(&self) -> (r: String)
        ensures
            r@ == self.line(),
    {
        let mut r = String::from_str("CMD ");
        r.append(self.value.as_str());
        r
    }
}

impl Clone for CMD {
    fn clone(&self) -> (r: Self)
        ensures
            r == *self,
    {
        CMD { value: self.value.clone() }
    }
}

impl From<CMD> for Instruction {
    fn from(instruction: CMD) -> Self {
        Instruction::CMD(instruction)
    }
}

impl vstd::std_specs::convert::FromSpecImpl<CMD> for Instruction {
    open spec fn obeys_from_spec() -> bool {
        true
    }

    open spec fn from_spec(v: CMD) -> Self {
        Instruction::CMD(v)
    }
}

/// The `LABEL` instruction; `value` is the text after the keyword.
#[derive(Debug, PartialEq, Eq)]
pub struct LABEL {
    pub value: String,
}

impl View for LABEL {
    type V = Seq<char>;

    open spec fn view(&self) -> Seq<char> {
        self.value@
    }
}

impl Keyword for LABEL {
    open spec fn prefix() -> Seq<char> {
        "LABEL "@
    }
}

impl LABEL {
    /// The rendered line: the keyword, one space, then the value.
    pub open spec fn line(&self) -> Seq<char> {
        keyword_line(*self)
    }

    /// Wraps text already formatted as the arguments of `LABEL`; nothing is checked.
    pub fn from(value: &str) -> (r: Self)
        ensures
            r@ == value@,
    {
        LABEL { value: String::from_str(value) }
    }

    /// Renders the instruction as one Dockerfile line.
    pub fn to_string(&self) -> (r: String)
        ensures
            r@ == self.line(),
    {
        let mut r = String::from_str("LABEL ");
        r.append(self.value.as_str());
        r
    }
}

impl Clone for LABEL {
    fn clone(&self) -> (r: Self)
        ensures
            r == *self,
    {
        LABEL { value: self.value.clone() }
    }
}

impl From<LABEL> for Instruction {
    fn from(instruction: LABEL) -> Self {
        Instruction::LABEL(instruction)
    }
}

impl vstd::std_specs::convert::FromSpecImpl<LABEL> for Instruction {
    open spec fn obeys_from_spec() -> bool {
        true
    }

    open spec fn from_spec(v: LABEL) -> Self {
        Instruction::LABEL(v)
    }
}

/// The `EXPOSE` instruction; `value` is the text after the keyword.
#[derive(Debug, PartialEq, Eq)]
pub struct EXPOSE {
    pub value: String,
}

impl View for EXPOSE {
    type V = Seq<char>;

    open spec fn view(&self) -> Seq<char> {
        self.value@
    }
}

impl Keyword for EXPOSE {
    open spec fn prefix() -> Seq<char> {
        "EXPOSE "@
    }
}

impl EXPOSE {
    /// The rendered line: the keyword, one space, then the value.
    pub open spec fn line(&self) -> Seq<char> {
        keyword_line(*self)
    }

    /// Wraps text already formatted as the arguments of `EXPOSE`; nothing is checked.
    pub fn from(value: &str) -> (r: Self)
        ensures
            r@ == value@,
    {
        EXPOSE { value: String::from_str(value) }
    }

    /// Renders the instruction as one Dockerfile line.
    pub fn to_string(&self) -> (r: String)
        ensures
            r@ == self.line(),
    {
        let mut r = String::from_str("EXPOSE ");
        r.append(self.value.as_str());
        r
    }
}

impl Clone for EXPOSE {
    fn clone(&self) -> (r: Self)
        ensures
            r == *self,
    {
        EXPOSE { value: self.value.clone() }
    }
}

impl From<EXPOSE> for Instruction {
    fn from(instruction: EXPOSE) -> Self {
        Instruction::EXPOSE(instruction)
    }
}

impl vstd::std_specs::convert::FromSpecImpl<EXPOSE> for Instruction {
    open spec fn obeys_from_spec() -> bool {
        true
    }

    open spec fn from_spec(v: EXPOSE) -> Self {
        Instruction::EXPOSE(v)
    }
}

/// The `ADD` instruction; `value` is the text after the keyword.
#[derive(Debug, PartialEq, Eq)]
pub struct ADD {
    pub value: String,
}

impl View for ADD {
    type V = Seq<char>;

    open spec fn view(&self) -> Seq<char> {
        self.value@
    }
}

impl Keyword for ADD {
    open spec fn prefix() -> Seq<char> {
        "ADD "@
    }
}

impl ADD {
    /// The rendered line: the keyword, one space, then the value.
    pub open spec fn line(&self) -> Seq<char> {
        keyword_line(*self)
    }

    /// Wraps text already formatted as the arguments of `ADD`; nothing is checked.
    pub fn from(value: &str) -> (r: Self)
        ensures
            r@ == value@,
    {
        ADD { value: String::from_str(value) }
    }

    /// Renders the instruction as one Dockerfile line.
    pub fn to_string(&self) -> (r: String)
        ensures
            r@ == self.line(),
    {
        let mut r = String::from_str("ADD ");
        r.append(self.value.as_str());
        r
    }
}

impl Clone for ADD {
    fn clone(&self) -> (r: Self)
        ensures
            r == *self,
    {
        ADD { value: self.value.clone() }
    }
}

impl From<ADD> for Instruction {
    fn from(instruction: ADD) -> Self {
        Instruction::ADD(instruction)
    }
}

impl vstd::std_specs::convert::FromSpecImpl<ADD> for Instruction {
    open spec fn obeys_from_spec() -> bool {
        true
    }

    open spec fn from_spec(v: ADD) -> Self {
        Instruction::ADD(v)
    }
}

/// The `COPY` instruction; `value` is the text after the keyword.
#[derive(Debug, PartialEq, Eq)]
pub struct COPY {
    pub value: String,
}

impl View for COPY {
    type V = Seq<char>;

    open spec fn view(&self) -> Seq<char> {
        self.value@
    }
}

impl Keyword for COPY {
    open spec fn prefix() -> Seq<char> {
        "COPY "@
    }
}

impl COPY {
    /// The rendered line: the keyword, one space, then the value.
    pub open spec fn line(&self) -> Seq<char> {
        keyword_line(*self)
    }

    /// Wraps text already formatted as the arguments of `COPY`; nothing is checked.
    pub fn from(value: &str) -> (r: Self)
        ensures
            r@ == value@,
    {
        COPY { value: String::from_str(value) }
    }

    /// Renders the instruction as one Dockerfile line.
    pub fn to_string(&self) -> (r: String)
        ensures
            r@ == self.line(),
    {
        let mut r = String::from_str("COPY ");
        r.append(self.value.as_str());
        r
    }
}

impl Clone for COPY {
    fn clone(&self) -> (r: Self)
        ensures
            r == *self,
    {
        COPY { value: self.value.clone() }
    }
}

impl From<COPY> for Instruction {
    fn from(instruction: COPY) -> Self {
        Instruction::COPY(instruction)
    }
}

impl vstd::std_specs::convert::FromSpecImpl<COPY> for Instruction {
    open spec fn obeys_from_spec() -> bool {
        true
    }

    open spec fn from_spec(v: COPY) -> Self {
        Instruction::COPY(v)
    }
}

/// The `ENTRYPOINT` instruction; `value` is the text after the keyword.
#[derive(Debug, PartialEq, Eq)]
pub struct ENTRYPOINT {
    pub value: String,
}

impl View for ENTRYPOINT {
    type V = Seq<char>;

    open spec fn view(&self) -> Seq<char> {
        self.value@
    }
}

impl Keyword for ENTRYPOINT {
    open spec fn prefix() -> Seq<char> {
        "ENTRYPOINT "@
    }
}

impl ENTRYPOINT {
    /// The rendered line: the keyword, one space, then the value.
    pub open spec fn line(&self) -> Seq<char> {
        keyword_line(*self)
    }

    /// Wraps text already formatted as the arguments of `ENTRYPOINT`; nothing is checked.
    pub fn from(value: &str) -> (r: Self)
        ensures
            r@ == value@,
    {
        ENTRYPOINT { value: String::from_str(value) }
    }

    /// Renders the instruction as one Dockerfile line.
    pub fn to_string(&self) -> (r: String)
        ensures
            r@ == self.line(),
    {
        let mut r = String::from_str("ENTRYPOINT ");
        r.append(self.value.as_str());
        r
    }
}

impl Clone for ENTRYPOINT {
    fn clone(&self) -> (r: Self)
        ensures
            r == *self,
    {
        ENTRYPOINT { value: self.value.clone() }
    }
}

impl From<ENTRYPOINT> for Instruction {
    fn from(instruction: ENTRYPOINT) -> Self {
        Instruction::ENTRYPOINT(instruction)
    }
}

impl vstd::std_specs::convert::FromSpecImpl<ENTRYPOINT> for Instruction {
    open spec fn obeys_from_spec() -> bool {
        true
    }

    open spec fn from_spec(v: ENTRYPOINT) -> Self {
        Instruction::ENTRYPOINT(v)
    }
}

/// The `VOLUME` instruction; `value` is the text after the keyword.
#[derive(Debug, PartialEq, Eq)]
pub struct VOLUME {
    pub value: String,
}

impl View for VOLUME {
    type V = Seq<char>;

    open spec fn view(&self) -> Seq<char> {
        self.value@
    }
}

impl Keyword for VOLUME {
    open spec fn prefix() -> Seq<char> {
        "VOLUME "@
    }
}

impl VOLUME {
    /// The rendered line: the keyword, one space, then the value.
    pub open spec fn line(&self) -> Seq<char> {
        keyword_line(*self)
    }

    /// Wraps text already formatted as the arguments of `VOLUME`; nothing is checked.
    pub fn from(value: &str) -> (r: Self)
        ensures
            r@ == value@,
    {
        VOLUME { value: String::from_str(value) }
    }

    /// Renders the instruction as one Dockerfile line.
    pub fn to_string(&self) -> (r: String)
        ensures
            r@ == self.line(),
    {
        let mut r = String::from_str("VOLUME ");
        r.append(self.value.as_str());
        r
    }
}

impl Clone for VOLUME {
    fn clone(&self) -> (r: Self)
        ensures
            r == *self,
    {
        VOLUME { value: self.value.clone() }
    }
}

impl From<VOLUME> for Instruction {
    fn from(instruction: VOLUME) -> Self {
        Instruction::VOLUME(instruction)
    }
}

impl vstd::std_specs::convert::FromSpecImpl<VOLUME> for Instruction {
    open spec fn obeys_from_spec() -> bool {
        true
    }

    open spec fn from_spec(v: VOLUME) -> Self {
        Instruction::VOLUME(v)
    }
}

/// The `USER` instruction; `value` is the text after the keyword.
#[derive(Debug, PartialEq, Eq)]
pub struct USER {
    pub value: String,
}

impl View for USER {
    type V = Seq<char>;

    open spec fn view(&self) -> Seq<char> {
        self.value@
    }
}

impl Keyword for USER {
    open spec fn prefix() -> Seq<char> {
        "USER "@
    }
}

impl USER {
    /// The rendered line: the keyword, one space, then the value.
    pub open spec fn line(&self) -> Seq<char> {
        keyword_line(*self)
    }

    /// Wraps text already formatted as the arguments of `USER`; nothing is checked.
    pub fn from(value: &str) -> (r: Self)
        ensures
            r@ == value@,
    {
        USER { value: String::from_str(value) }
    }

    /// Renders the instruction as one Dockerfile line.
    pub fn to_string(&self) -> (r: String)
        ensures
            r@ == self.line(),
    {
        let mut r = String::from_str("USER ");
        r.append(self.value.as_str());
        r
    }
}

impl Clone for USER {
    fn clone(&self) -> (r: Self)
        ensures
            r == *self,
    {
        USER { value: self.value.clone() }
    }
}

impl From<USER> for Instruction {
    fn from(instruction: USER) -> Self {
        Instruction::USER(instruction)
    }
}

impl vstd::std_specs::convert::FromSpecImpl<USER> for Instruction {
    open spec fn obeys_from_spec() -> bool {
        true
    }

    open spec fn from_spec(v: USER) -> Self {
        Instruction::USER(v)
    }
}

/// The `WORKDIR` instruction; `value` is the text after the keyword.
#[derive(Debug, PartialEq, Eq)]
pub struct WORKDIR {
    pub value: String,
}

impl View for WORKDIR {
    type V = Seq<char>;

    open spec fn view(&self) -> Seq<char> {
        self.value@
    }
}

impl Keyword for WORKDIR {
    open spec fn prefix() -> Seq<char> {
        "WORKDIR "@
    }
}

impl WORKDIR {
    /// The rendered line: the keyword, one space, then the value.
    pub open spec fn line(&self) -> Seq<char> {
        keyword_line(*self)
    }

    /// Wraps text already formatted as the arguments of `WORKDIR`; nothing is checked.
    pub fn from(value: &str) -> (r: Self)
        ensures
            r@ == value@,
    {
        WORKDIR { value: String::from_str(value) }
    }

    /// Renders the instruction as one Dockerfile line.
    pub fn to_string(&self) -> (r: String)
        ensures
            r@ == self.line(),
    {
        let mut r = String::from_str("WORKDIR ");
        r.append(self.value.as_str());
        r
    }
}

impl Clone for WORKDIR {
    fn clone(&self) -> (r: Self)
        ensures
            r == *self,
    {
        WORKDIR { value: self.value.clone() }
    }
}

impl From<WORKDIR> for Instruction {
    fn from(instruction: WORKDIR) -> Self {
        Instruction::WORKDIR(instruction)
    }
}

impl vstd::std_specs::convert::FromSpecImpl<WORKDIR> for Instruction {
    open spec fn obeys_from_spec() -> bool {
        true
    }

    open spec fn from_spec(v: WORKDIR) -> Self {
        Instruction::WORKDIR(v)
    }
}

/// The `ARG` instruction; `value` is the text after the keyword.
#[derive(Debug, PartialEq, Eq)]
pub struct ARG {
    pub value: String,
}

impl View for ARG {
    type V = Seq<char>;

    open spec fn view(&self) -> Seq<char> {
        self.value@
    }
}

impl Keyword for ARG {
    open spec fn prefix() -> Seq<char> {
        "ARG "@
    }
}

impl ARG {
    /// The rendered line: the keyword, one space, then the value.
    pub open spec fn line(&self) -> Seq<char> {
        keyword_line(*self)
    }

    /// Wraps text already formatted as the arguments of `ARG`; nothing is checked.
    pub fn from(value: &str) -> (r: Self)
        ensures
            r@ == value@,
    {
        ARG { value: String::from_str(value) }
    }

    /// Renders the instruction as one Dockerfile line.
    pub fn to_string(&self) -> (r: String)
        ensures
            r@ == self.line(),
    {
        let mut r = String::from_str("ARG ");
        r.append(self.value.as_str());
        r
    }
}

impl Clone for ARG {
    fn clone(&self) -> (r: Self)
        ensures
            r == *self,
    {
        ARG { value: self.value.clone() }
    }
}

impl From<ARG> for Instruction {
    fn from(instruction: ARG) -> Self {
        Instruction::ARG(instruction)
    }
}

impl vstd::std_specs::convert::FromSpecImpl<ARG> for Instruction {
    open spec fn obeys_from_spec() -> bool {
        true
    }

    open spec fn from_spec(v: ARG) -> Self {
        Instruction::ARG(v)
    }
}

/// The `ONBUILD` instruction; `value` is the text after the keyword.
#[derive(Debug, PartialEq, Eq)]
pub struct ONBUILD {
    pub value: String,
}

impl View for ONBUILD {
    type V = Seq<char>;

    open spec fn view(&self) -> Seq<char> {
        self.value@
    }
}

impl Keyword for ONBUILD {
    open spec fn prefix() -> Seq<char> {
        "ONBUILD "@
    }
}

impl ONBUILD {
    /// The rendered line: the keyword, one space, then the value.
    pub open spec fn line(&self) -> Seq<char> {
        keyword_line(*self)
    }

    /// Wraps text already formatted as the arguments of `ONBUILD`; nothing is checked.
    pub fn from(value: &str) -> (r: Self)
        ensures
            r@ == value@,
    {
        ONBUILD { value: String::from_str(value) }
    }

    /// Renders the instruction as one Dockerfile line.
    pub fn to_string(&self) -> (r: String)
        ensures
            r@ == self.line(),
    {
        let mut r = String::from_str("ONBUILD ");
        r.append(self.value.as_str());
        r
    }
}

impl Clone for ONBUILD {
    fn clone(&self) -> (r: Self)
        ensures
            r == *self,
    {
        ONBUILD { value: self.value.clone() }
    }
}

impl From<ONBUILD> for Instruction {
    fn from(instruction: ONBUILD) -> Self {
        Instruction::ONBUILD(instruction)
    }
}

impl vstd::std_specs::convert::FromSpecImpl<ONBUILD> for Instruction {
    open spec fn obeys_from_spec() -> bool {
        true
    }

    open spec fn from_spec(v: ONBUILD) -> Self {
        Instruction::ONBUILD(v)
    }
}

/// The `STOPSIGNAL` instruction; `value` is the text after the keyword.
#[derive(Debug, PartialEq, Eq)]
pub struct STOPSIGNAL {
    pub value: String,
}

impl View for STOPSIGNAL {
    type V = Seq<char>;

    open spec fn view(&self) -> Seq<char> {
        self.value@
    }
}

impl Keyword for STOPSIGNAL {
    open spec fn prefix() -> Seq<char> {
        "STOPSIGNAL "@
    }
}

impl STOPSIGNAL {
    /// The rendered line: the keyword, one space, then the value.
    pub open spec fn line(&self) -> Seq<char> {
        keyword_line(*self)
    }

    /// Wraps text already formatted as the arguments of `STOPSIGNAL`; nothing is checked.
    pub fn from(value: &str) -> (r: Self)
        ensures
            r@ == value@,
    {
        STOPSIGNAL { value: String::from_str(value) }
    }

    /// Renders the instruction as one Dockerfile line.
    pub fn to_string(&self) -> (r: String)
        ensures
            r@ == self.line(),
    {
        let mut r = String::from_str("STOPSIGNAL ");
        r.append(self.value.as_str());
        r
    }
}

impl Clone for STOPSIGNAL {
    fn clone(&self) -> (r: Self)
        ensures
            r == *self,
    {
        STOPSIGNAL { value: self.value.clone() }
    }
}

impl From<STOPSIGNAL> for Instruction {
    fn from(instruction: STOPSIGNAL) -> Self {
        Instruction::STOPSIGNAL(instruction)
    }
}

impl vstd::std_specs::convert::FromSpecImpl<STOPSIGNAL> for Instruction {
    open spec fn obeys_from_spec() -> bool {
        true
    }

    open spec fn from_spec(v: STOPSIGNAL) -> Self {
        Instruction::STOPSIGNAL(v)
    }
}

/// The `HEALTHCHECK` instruction; `value` is the text after the keyword.
#[derive(Debug, PartialEq, Eq)]
pub struct HEALTHCHECK {
    pub value: String,
}

impl View for HEALTHCHECK {
    type V = Seq<char>;

    open spec fn view(&self) -> Seq<char> {
        self.value@
    }
}

impl Keyword for HEALTHCHECK {
    open spec fn prefix() -> Seq<char> {
        "HEALTHCHECK "@
    }
}

impl HEALTHCHECK {
    /// The rendered line: the keyword, one space, then the value.
    pub open spec fn line(&self) -> Seq<char> {
        keyword_line(*self)
    }

    /// Wraps text already formatted as the arguments of `HEALTHCHECK`; nothing is checked.
    pub fn from(value: &str) -> (r: Self)
        ensures
            r@ == value@,
    {
        HEALTHCHECK { value: String::from_str(value) }
    }

    /// Renders the instruction as one Dockerfile line.
    pub fn to_string(&self) -> (r: String)
        ensures
            r@ == self.line(),
    {
        let mut r = String::from_str("HEALTHCHECK ");
        r.append(self.value.as_str());
        r
    }
}

impl Clone for HEALTHCHECK {
    fn clone(&self) -> (r: Self)
        ensures
            r == *self,
    {
        HEALTHCHECK { value: self.value.clone() }
    }
}

impl From<HEALTHCHECK> for Instruction {
    fn from(instruction: HEALTHCHECK) -> Self {
        Instruction::HEALTHCHECK(instruction)
    }
}

impl vstd::std_specs::convert::FromSpecImpl<HEALTHCHECK> for Instruction {
    open spec fn obeys_from_spec() -> bool {
        true
    }

    open spec fn from_spec(v: HEALTHCHECK) -> Self {
        Instruction::HEALTHCHECK(v)
    }
}

/// The `SHELL` instruction; `value` is the text after the keyword.
#[derive(Debug, PartialEq, Eq)]
pub struct SHELL {
    pub value: String,
}

impl View for SHELL {
    type V = Seq<char>;

    open spec fn view(&self) -> Seq<char> {
        self.value@
    }
}

impl Keyword for SHELL {
    open spec fn prefix() -> Seq<char> {
        "SHELL "@
    }
}

impl SHELL {
    /// The rendered line: the keyword, one space, then the value.
    pub open spec fn line(&self) -> Seq<char> {
        keyword_line(*self)
    }

    /// Wraps text already formatted as the arguments of `SHELL`; nothing is checked.
    pub fn from(value: &str) -> (r: Self)
        ensures
            r@ == value@,
    {
        SHELL { value: String::from_str(value) }
    }

    /// Renders the instruction as one Dockerfile line.
    pub fn to_string(&self) -> (r: String)
        ensures
            r@ == self.line(),
    {
        let mut r = String::from_str("SHELL ");
        r.append(self.value.as_str());
        r
    }
}

impl Clone for SHELL {
    fn clone(&self) -> (r: Self)
        ensures
            r == *self,
    {
        SHELL { value: self.value.clone() }
    }
}

impl From<SHELL> for Instruction {
    fn from(instruction: SHELL) -> Self {
        Instruction::SHELL(instruction)
    }
}

impl vstd::std_specs::convert::FromSpecImpl<SHELL> for Instruction {
    open spec fn obeys_from_spec() -> bool {
        true
    }

    open spec fn from_spec(v: SHELL) -> Self {
        Instruction::SHELL(v)
    }
}

/// One line of a Dockerfile: an instruction of a known keyword, or a raw line (`ANY`)
/// written out verbatim.
#[derive(Debug, PartialEq, Eq)]
pub enum Instruction {
    FROM(FROM),
    ENV(ENV),
    RUN(RUN),
    CMD(CMD),
    LABEL(LABEL),
    EXPOSE(EXPOSE),
    ADD(ADD),
    COPY(COPY),
    ENTRYPOINT(ENTRYPOINT),
    VOLUME(VOLUME),
    USER(USER),
    WORKDIR(WORKDIR),
    ARG(ARG),
    ONBUILD(ONBUILD),
    STOPSIGNAL(STOPSIGNAL),
    HEALTHCHECK(HEALTHCHECK),
    SHELL(SHELL),
    ANY(String),
}

impl From<String> for Instruction {
    fn from(line: String) -> Self {
        Instruction::ANY(line)
    }
}

impl vstd::std_specs::convert::FromSpecImpl<String> for Instruction {
    open spec fn obeys_from_spec() -> bool {
        true
    }

    open spec fn from_spec(v: String) -> Self {
        Instruction::ANY(v)
    }
}

impl Instruction {
    /// The rendered line: `<KEYWORD> <value>`, or the raw text itself.
    pub open spec fn line(&self) -> Seq<char> {
        match self {
            Instruction::FROM(i) => i.line(),
            Instruction::ENV(i) => i.line(),
            Instruction::RUN(i) => i.line(),
            Instruction::CMD(i) => i.line(),
            Instruction::LABEL(i) => i.line(),
            Instruction::EXPOSE(i) => i.line(),
            Instruction::ADD(i) => i.line(),
            Instruction::COPY(i) => i.line(),
            Instruction::ENTRYPOINT(i) => i.line(),
            Instruction::VOLUME(i) => i.line(),
            Instruction::USER(i) => i.line(),
            Instruction::WORKDIR(i) => i.line(),
            Instruction::ARG(i) => i.line(),
            Instruction::ONBUILD(i) => i.line(),
            Instruction::STOPSIGNAL(i) => i.line(),
            Instruction::HEALTHCHECK(i) => i.line(),
            Instruction::SHELL(i) => i.line(),
            Instruction::ANY(s) => s@,
        }
    }

    /// Renders the instruction as Dockerfile text.
    pub fn to_string(&self) -> (r: String)
        ensures
            r@ == self.line(),
    {
        match self {
            Instruction::FROM(i) => i.to_string(),
            Instruction::ENV(i) => i.to_string(),
            Instruction::RUN(i) => i.to_string(),
            Instruction::CMD(i) => i.to_string(),
            Instruction::LABEL(i) => i.to_string(),
            Instruction::EXPOSE(i) => i.to_string(),
            Instruction::ADD(i) => i.to_string(),
            Instruction::COPY(i) => i.to_string(),
            Instruction::ENTRYPOINT(i) => i.to_string(),
            Instruction::VOLUME(i) => i.to_string(),
            Instruction::USER(i) => i.to_string(),
            Instruction::WORKDIR(i) => i.to_string(),
            Instruction::ARG(i) => i.to_string(),
            Instruction::ONBUILD(i) => i.to_string(),
            Instruction::STOPSIGNAL(i) => i.to_string(),
            Instruction::HEALTHCHECK(i) => i.to_string(),
            Instruction::SHELL(i) => i.to_string(),
            Instruction::ANY(s) => s.clone(),
        }
    }
}

impl Clone for Instruction {
    fn clone(&self) -> (r: Self)
        ensures
            r == *self,
    {
        match self {
            Instruction::FROM(i) => Instruction::FROM(i.clone()),
            Instruction::ENV(i) => Instruction::ENV(i.clone()),
            Instruction::RUN(i) => Instruction::RUN(i.clone()),
            Instruction::CMD(i) => Instruction::CMD(i.clone()),
            Instruction::LABEL(i) => Instruction::LABEL(i.clone()),
            Instruction::EXPOSE(i) => Instruction::EXPOSE(i.clone()),
            Instruction::ADD(i) => Instruction::ADD(i.clone()),
            Instruction::COPY(i) => Instruction::COPY(i.clone()),
            Instruction::ENTRYPOINT(i) => Instruction::ENTRYPOINT(i.clone()),
            Instruction::VOLUME(i) => Instruction::VOLUME(i.clone()),
            Instruction::USER(i) => Instruction::USER(i.clone()),
            Instruction::WORKDIR(i) => Instruction::WORKDIR(i.clone()),
            Instruction::ARG(i) => Instruction::ARG(i.clone()),
            Instruction::ONBUILD(i) => Instruction::ONBUILD(i.clone()),
            Instruction::STOPSIGNAL(i) => Instruction::STOPSIGNAL(i.clone()),
            Instruction::HEALTHCHECK(i) => Instruction::HEALTHCHECK(i.clone()),
            Instruction::SHELL(i) => Instruction::SHELL(i.clone()),
            Instruction::ANY(s) => Instruction::ANY(s.clone()),
        }
    }
}

} // verus!
