//! The attributes that the repository keeps of each installed package.
//!
//! An attribute is a named value under the package's own key. Reading one is
//! a [`Lookup`]: a machine of two steps that is driven from outside like
//! those of [`repository`](crate::repository).

use crate::error::Error;
use crate::reg::{readable, Reply, ReplyView, Request, RequestView, ValueKind};
use crate::repository::{request_view, Listing};
use crate::utf16;
use crate::wstring::WString;
use vstd::prelude::*;

verus! {

/// Code units offered for an attribute that is text.
pub const TEXT_CAPACITY: usize = 0x1_0000;

/// The attributes of a package that can be read.
#[derive(Clone, Copy, Debug, PartialEq, Eq, Structural, Hash)]
pub enum Attribute {
    /// `DisplayName`: the package's name for people, as text.
    DisplayName,
    /// `OSMaxVersionTested`: a version number of 64 bits.
    OsMaxVersionTested,
    /// `OSMinVersion`: a version number of 64 bits.
    OsMinVersion,
    /// `PackageRootFolder`: the path of the folder that holds the package.
    PackageRootFolder,
    /// `SupportedUsers`: a count of 32 bits.
    SupportedUsers,
}

impl Attribute {
    /// Name of the stored value.
    pub open spec fn spec_name(self) -> &'static str {
        match self {
            Attribute::DisplayName => "DisplayName",
            Attribute::OsMaxVersionTested => "OSMaxVersionTested",
            Attribute::OsMinVersion => "OSMinVersion",
            Attribute::PackageRootFolder => "PackageRootFolder",
            Attribute::SupportedUsers => "SupportedUsers",
        }
    }

    /// Name of the stored value.
    #[verifier::when_used_as_spec(spec_name)]
    pub fn name(self) -> (name: &'static str)
        ensures
            name == self.spec_name(),
    {
        match self {
            Attribute::DisplayName => "DisplayName",
            Attribute::OsMaxVersionTested => "OSMaxVersionTested",
            Attribute::OsMinVersion => "OSMinVersion",
            Attribute::PackageRootFolder => "PackageRootFolder",
            Attribute::SupportedUsers => "SupportedUsers",
        }
    }

    /// Kind of the stored value.
    pub open spec fn spec_kind(self) -> ValueKind {
        match self {
            Attribute::DisplayName => ValueKind::Text,
            Attribute::OsMaxVersionTested => ValueKind::Qword,
            Attribute::OsMinVersion => ValueKind::Qword,
            Attribute::PackageRootFolder => ValueKind::Text,
            Attribute::SupportedUsers => ValueKind::Dword,
        }
    }

    /// Kind of the stored value.
    #[verifier::when_used_as_spec(spec_kind)]
    pub fn kind(self) -> (kind: ValueKind)
        ensures
            kind == self.spec_kind(),
    {
        match self {
            Attribute::DisplayName => ValueKind::Text,
            Attribute::OsMaxVersionTested => ValueKind::Qword,
            Attribute::OsMinVersion => ValueKind::Qword,
            Attribute::PackageRootFolder => ValueKind::Text,
            Attribute::SupportedUsers => ValueKind::Dword,
        }
    }

    /// Elements of the buffer that is offered for the stored value: one for a
    /// number, [`TEXT_CAPACITY`] for text. A text that needs more is not
    /// asked for again with a larger buffer.
    pub open spec fn spec_capacity(self) -> usize {
        match self.spec_kind() {
            ValueKind::Text => TEXT_CAPACITY,
            _ => 1,
        }
    }

    /// Elements of the buffer that is offered for the stored value.
    #[verifier::when_used_as_spec(spec_capacity)]
    pub fn capacity(self) -> (capacity: usize)
        ensures
            capacity == self.spec_capacity(),
    {
        match self.kind() {
            ValueKind::Text => TEXT_CAPACITY,
            _ => 1,
        }
    }

    /// The request for this attribute of the package `identity`.
    pub open spec fn request(self, identity: Seq<u16>) -> RequestView {
        RequestView::GetValue {
            sub_path: Some(identity),
            name: Some(utf16::encoding(self.spec_name()@)),
            kind: self.spec_kind(),
            capacity: self.spec_capacity(),
        }
    }

    /// The attribute's value as `reply` gives it, in the attribute's own
    /// type, or the error that `reply` stands for.
    pub open spec fn value(self, reply: ReplyView) -> Result<ValueView, Error> {
        match self {
            Attribute::DisplayName => match reply.text_outcome() {
                Ok(units) => Ok(ValueView::Text(utf16::lossy_text(units))),
                Err(e) => Err(e),
            },
            Attribute::PackageRootFolder => match reply.text_outcome() {
                Ok(units) => Ok(ValueView::Path(units)),
                Err(e) => Err(e),
            },
            Attribute::OsMaxVersionTested | Attribute::OsMinVersion => match reply.qword_outcome() {
                Ok(version) => Ok(ValueView::Version(version)),
                Err(e) => Err(e),
            },
            Attribute::SupportedUsers => match reply.dword_outcome() {
                Ok(count) => Ok(ValueView::Count(count)),
                Err(e) => Err(e),
            },
        }
    }

    /// Reads this attribute's value from the reply to its request.
    pub fn read(self, reply: &Reply) -> (value: Result<Value, Error>)
        ensures
            result_view(value) == self.value(reply@),
    {
        match self {
            Attribute::DisplayName => match reply.text() {
                Ok(units) => Ok(Value::Text(utf16::decode_lossy(units))),
                Err(e) => Err(e),
            },
            Attribute::PackageRootFolder => match reply.text() {
                Ok(units) => Ok(Value::Path(WString::from(units))),
                Err(e) => Err(e),
            },
            Attribute::OsMaxVersionTested | Attribute::OsMinVersion => match reply.qword() {
                Ok(version) => Ok(Value::Version(version)),
                Err(e) => Err(e),
            },
            Attribute::SupportedUsers => match reply.dword() {
                Ok(count) => Ok(Value::Count(count)),
                Err(e) => Err(e),
            },
        }
    }
}

/// The value of an attribute.
#[derive(Debug, PartialEq, Eq)]
pub enum Value {
    /// Text for people. Code units that were not well-formed UTF-16 have
    /// become U+FFFD.
    Text(String),
    /// A path of the file system, code unit for code unit as it was stored.
    Path(WString),
    /// A version number.
    Version(u64),
    /// A count.
    Count(u32),
}

/// A [`Value`] as plain values.
pub ghost enum ValueView {
    Text(Seq<char>),
    Path(Seq<u16>),
    Version(u64),
    Count(u32),
}

impl View for Value {
    type V = ValueView;

    open spec fn view(&self) -> ValueView {
        match *self {
            Value::Text(text) => ValueView::Text(text@),
            Value::Path(path) => ValueView::Path(path@),
            Value::Version(version) => ValueView::Version(version),
            Value::Count(count) => ValueView::Count(count),
        }
    }
}

/// The view of what a lookup gave.
pub open spec fn result_view(result: Result<Value, Error>) -> Result<ValueView, Error> {
    match result {
        Ok(value) => Ok(value@),
        Err(e) => Err(e),
    }
}

/// How far a lookup has come.
pub enum Answer {
    /// The packages' key has not been opened yet.
    Unopened,
    /// The packages' key is open; the value has not been asked for yet.
    Opened,
    /// The lookup is over, with the value or with the error that ended it.
    Done(Result<Value, Error>),
}

/// An [`Answer`] as plain values.
pub ghost enum AnswerView {
    Unopened,
    Opened,
    Done(Result<ValueView, Error>),
}

impl View for Answer {
    type V = AnswerView;

    open spec fn view(&self) -> AnswerView {
        match *self {
            Answer::Unopened => AnswerView::Unopened,
            Answer::Opened => AnswerView::Opened,
            Answer::Done(result) => AnswerView::Done(result_view(result)),
        }
    }
}

/// The lookup of one attribute of one package.
///
/// A lookup keeps nothing from one run to the next and shares nothing with
/// other lookups: its value is what the two replies of its own run make it.
pub struct Lookup {
    identity: WString,
    attribute: Attribute,
    answer: Answer,
}

/// A [`Lookup`] as plain values.
pub ghost struct LookupView {
    pub identity: Seq<u16>,
    pub attribute: Attribute,
    pub answer: AnswerView,
}

impl View for Lookup {
    type V = LookupView;

    closed spec fn view(&self) -> LookupView {
        LookupView { identity: self.identity@, attribute: self.attribute, answer: self.answer@ }
    }
}

impl LookupView {
    /// The lookup of `attribute` of the package `identity` before anything
    /// has been asked.
    pub open spec fn start(identity: Seq<u16>, attribute: Attribute) -> LookupView {
        LookupView { identity, attribute, answer: AnswerView::Unopened }
    }

    /// The call to make next: first the packages' key is opened for reading,
    /// then the value is asked for below the package's own name. None once
    /// the lookup is over.
    pub open spec fn request(self) -> Option<RequestView> {
        match self.answer {
            AnswerView::Unopened => Some(Listing::Packages.open_request()),
            AnswerView::Opened => Some(self.attribute.request(self.identity)),
            AnswerView::Done(_) => None,
        }
    }

    /// The lookup once `reply` is in. A key that cannot be opened ends the
    /// lookup with the error of the attempt; the reply to the request for the
    /// value ends it with what the attribute reads from it.
    pub open spec fn after(self, reply: ReplyView) -> LookupView {
        match self.answer {
            AnswerView::Unopened => match reply.open_outcome() {
                Ok(_) => LookupView { answer: AnswerView::Opened, ..self },
                Err(e) => LookupView { answer: AnswerView::Done(Err(e)), ..self },
            },
            AnswerView::Opened => LookupView {
                answer: AnswerView::Done(self.attribute.value(reply)),
                ..self
            },
            AnswerView::Done(_) => self,
        }
    }

    /// What the lookup gave, once it is over.
    pub open spec fn outcome(self) -> Option<Result<ValueView, Error>> {
        match self.answer {
            AnswerView::Done(result) => Some(result),
            _ => None,
        }
    }
}

impl Lookup {
    /// The lookup of `attribute` of the package named `identity`, with
    /// nothing asked of the store yet.
    pub fn new(identity: WString, attribute: Attribute) -> (lookup: Lookup)
        ensures
            lookup@ == LookupView::start(identity@, attribute),
    {
        Lookup { identity, attribute, answer: Answer::Unopened }
    }

    /// The call to make next, or `None` when the lookup is over.
    pub fn request(&self) -> (request: Option<Request>)
        ensures
            request_view(request) == self@.request(),
    {
        match self.answer {
            Answer::Unopened => Some(Listing::Packages.open()),
            Answer::Opened => Some(
                Request::GetValue {
                    sub_path: Some(self.identity.clone()),
                    name: Some(WString::from(self.attribute.name())),
                    kind: self.attribute.kind(),
                    capacity: self.attribute.capacity(),
                },
            ),
            Answer::Done(_) => None,
        }
    }

    /// Takes the reply to the call that [`request`](Lookup::request) asked
    /// for.
    pub fn respond(&mut self, reply: &Reply)
        ensures
            final(self)@ == old(self)@.after(reply@),
    {
        match self.answer {
            Answer::Unopened => {
                self.answer =
                match reply.opened() {
                    Ok(_) => Answer::Opened,
                    Err(e) => Answer::Done(Err(e)),
                };
            },
            Answer::Opened => {
                self.answer = Answer::Done(self.attribute.read(reply));
            },
            Answer::Done(_) => {},
        }
    }

    /// What the lookup gave, or `None` while it is not over.
    pub fn finish(self) -> (outcome: Option<Result<Value, Error>>)
        ensures
            match self@.outcome() {
                Some(result) => outcome matches Some(r) && result_view(r) == result,
                None => outcome is None,
            },
    {
        match self.answer {
            Answer::Done(result) => Some(result),
            _ => None,
        }
    }
}

/// The buffer that is offered for an attribute has a size that the native
/// call can be told.
pub proof fn lemma_attribute_is_readable(attribute: Attribute)
    ensures
        readable(attribute.spec_kind(), attribute.spec_capacity()),
{
}

/// Reading an attribute twice gives the same value twice, as long as the
/// store answers the same: two lookups of one attribute of one package ask
/// for the same calls and, on the same replies, end with the same outcome.
pub proof fn lemma_lookup_repeats(
    identity: Seq<u16>,
    attribute: Attribute,
    first: ReplyView,
    second: ReplyView,
    again_first: ReplyView,
    again_second: ReplyView,
)
    requires
        first == again_first,
        second == again_second,
    ensures
        LookupView::start(identity, attribute).after(first).after(second).outcome()
            == LookupView::start(identity, attribute).after(again_first).after(
            again_second,
        ).outcome(),
        LookupView::start(identity, attribute).after(first).request() == LookupView::start(
            identity,
            attribute,
        ).after(again_first).request(),
{
}

/// Two replies are all that a lookup takes: after them it is over, whatever
/// they were, and a key that could not be opened ends it after one.
pub proof fn lemma_lookup_ends(
    identity: Seq<u16>,
    attribute: Attribute,
    first: ReplyView,
    second: ReplyView,
)
    ensures
        LookupView::start(identity, attribute).after(first).after(second).outcome() is Some,
        first.open_outcome() matches Err(e) ==> LookupView::start(identity, attribute).after(
            first,
        ).outcome() == Some(Err::<ValueView, Error>(e)),
        first.open_outcome() is Ok ==> LookupView::start(identity, attribute).after(first).after(
            second,
        ).outcome() == Some(attribute.value(second)),
{
}

/// A value has the type of its attribute: text for the display name, a path
/// for the root folder, a version for the two system versions and a count
/// for the supported users.
pub proof fn lemma_value_has_attribute_type(attribute: Attribute, reply: ReplyView)
    ensures
        match attribute.value(reply) {
            Ok(ValueView::Text(_)) => attribute == Attribute::DisplayName,
            Ok(ValueView::Path(_)) => attribute == Attribute::PackageRootFolder,
            Ok(ValueView::Version(_)) => attribute == Attribute::OsMaxVersionTested || attribute
                == Attribute::OsMinVersion,
            Ok(ValueView::Count(_)) => attribute == Attribute::SupportedUsers,
            Err(_) => true,
        },
{
}

/// On a platform without a store every lookup fails as unsupported, at its
/// first step.
pub proof fn lemma_unsupported_lookup_fails(identity: Seq<u16>, attribute: Attribute)
    ensures
        LookupView::start(identity, attribute).after(ReplyView::Unsupported).outcome() == Some(
            Err::<ValueView, Error>(Error::Unsupported),
        ),
{
}

} // verus!
