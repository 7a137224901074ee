//! The package repository: which families and packages are installed.
//!
//! The repository lives in the store under two keys of the classes root. The
//! operations of this module do not reach the store themselves. Each is a
//! small machine that is driven from outside: `request` says which native
//! call to make next, `respond` (`next`, for an enumeration) takes what the
//! call gave back, and when `request` has nothing left to ask the machine
//! holds its result. Whoever drives a machine makes the calls in the order
//! asked and keeps the key that an [`OpenRoot`](Request::OpenRoot) request
//! opened until the machine is done.
//!
//! A machine takes every reply as it comes. What it does is fixed for each
//! reply that can be written down, not only for those that a well-behaved
//! store gives.

use crate::error::Error;
use crate::family::PackageFamilyName;
use crate::install::Install;
use crate::package::PackageFullName;
use crate::reg::{Options, Reply, ReplyView, Request, RequestView, Root, SAM};
use crate::utf16;
use crate::wstring::WString;
use vstd::prelude::*;

verus! {

/// Path of the key whose children are the installed families.
pub const FAMILIES_KEY: &'static str =
    "Local Settings\\Software\\Microsoft\\Windows\\CurrentVersion\\AppModel\\Repository\\Families";

/// Path of the key whose children are the installed packages.
pub const PACKAGES_KEY: &'static str =
    "Local Settings\\Software\\Microsoft\\Windows\\CurrentVersion\\AppModel\\Repository\\Packages";

/// The two lists of the repository.
#[derive(Clone, Copy, Debug, PartialEq, Eq, Structural, Hash)]
pub enum Listing {
    Families,
    Packages,
}

impl Listing {
    /// Path of the list's key below the classes root.
    pub open spec fn spec_path(self) -> &'static str {
        match self {
            Listing::Families => FAMILIES_KEY,
            Listing::Packages => PACKAGES_KEY,
        }
    }

    /// Path of the list's key below the classes root.
    #[verifier::when_used_as_spec(spec_path)]
    pub fn path(self) -> (path: &'static str)
        ensures
            path == self.spec_path(),
    {
        match self {
            Listing::Families => FAMILIES_KEY,
            Listing::Packages => PACKAGES_KEY,
        }
    }

    /// The request that opens the list's key for reading.
    pub open spec fn open_request(self) -> RequestView {
        RequestView::OpenRoot {
            root: Root::ClassesRoot,
            sub_key: utf16::encoding(self.spec_path()@),
            options: Options(0),
            sam: SAM(0x0000_0009),
        }
    }

    /// The request that opens the list's key for reading.
    pub fn open(self) -> (request: Request)
        ensures
            request@ == self.open_request(),
    {
        Request::OpenRoot {
            root: Root::ClassesRoot,
            sub_key: WString::from(self.path()),
            options: Options::none(),
            sam: SAM::read_only(),
        }
    }
}

/// The view of a request that may be absent.
pub open spec fn request_view(request: Option<Request>) -> Option<RequestView> {
    match request {
        Some(r) => Some(r@),
        None => None,
    }
}

/// Where an enumeration stands.
#[derive(Clone, Copy, Debug, PartialEq, Eq)]
pub enum Position {
    /// The list's key has not been opened yet.
    Unopened,
    /// The key is open and the child with this number comes next.
    At(u32),
    /// The enumeration is over, for good. It holds the error that ended it,
    /// and `None` where the list simply had no more entries.
    Exhausted(Option<Error>),
}

impl Position {
    /// The call that an enumeration of `listing` needs next: none once it is
    /// exhausted.
    pub open spec fn request(self, listing: Listing) -> Option<RequestView> {
        match self {
            Position::Unopened => Some(listing.open_request()),
            Position::At(index) => Some(RequestView::EnumKey { index }),
            Position::Exhausted(_) => None,
        }
    }

    /// Where the enumeration stands once `reply` has come in.
    ///
    /// A list that is not there, or a platform without a store, is a list
    /// without entries: the enumeration ends as it does behind the last
    /// entry. Every other failure ends it too and is kept as the cause.
    pub open spec fn after(self, reply: ReplyView) -> Position {
        match self {
            Position::Unopened => match reply.open_outcome() {
                Ok(_) => Position::At(0),
                Err(Error::NotFound) => Position::Exhausted(None),
                Err(Error::Unsupported) => Position::Exhausted(None),
                Err(e) => Position::Exhausted(Some(e)),
            },
            Position::At(index) => match reply.name_outcome() {
                Ok(Some(_)) => if index < u32::MAX {
                    Position::At((index + 1) as u32)
                } else {
                    Position::Exhausted(None)
                },
                Ok(None) => Position::Exhausted(None),
                Err(e) => Position::Exhausted(Some(e)),
            },
            Position::Exhausted(cause) => Position::Exhausted(cause),
        }
    }

    /// The name that `reply` brings, if it brings one.
    pub open spec fn item(self, reply: ReplyView) -> Option<Seq<u16>> {
        match self {
            Position::At(_) => match reply.name_outcome() {
                Ok(Some(name)) => Some(name),
                _ => None,
            },
            _ => None,
        }
    }

    /// Whether the enumeration is over.
    pub open spec fn exhausted(self) -> bool {
        self is Exhausted
    }

    /// The error that ended the enumeration, if one did.
    pub open spec fn failure(self) -> Option<Error> {
        match self {
            Position::Exhausted(cause) => cause,
            _ => None,
        }
    }
}

/// The call that an enumeration of `listing` at `position` needs next.
fn next_request(listing: Listing, position: Position) -> (request: Option<Request>)
    ensures
        request_view(request) == position.request(listing),
{
    match position {
        Position::Unopened => Some(listing.open()),
        Position::At(index) => Some(Request::enum_key(index)),
        Position::Exhausted(_) => None,
    }
}

/// Moves `position` on by one reply and returns the name that came with it.
fn advance(position: &mut Position, reply: &Reply) -> (name: Option<WString>)
    ensures
        *final(position) == old(position).after(reply@),
        match old(position).item(reply@) {
            Some(units) => name matches Some(s) && s@ == units,
            None => name is None,
        },
{
    match *position {
        Position::Unopened => {
            *position =
            match reply.opened() {
                Ok(_) => Position::At(0),
                Err(Error::NotFound) => Position::Exhausted(None),
                Err(Error::Unsupported) => Position::Exhausted(None),
                Err(e) => Position::Exhausted(Some(e)),
            };
            None
        },
        Position::At(index) => match reply.child_name() {
            Ok(Some(units)) => {
                *position =
                if index < u32::MAX {
                    Position::At(index + 1)
                } else {
                    Position::Exhausted(None)
                };
                Some(WString::from(units))
            },
            Ok(None) => {
                *position = Position::Exhausted(None);
                None
            },
            Err(e) => {
                *position = Position::Exhausted(Some(e));
                None
            },
        },
        Position::Exhausted(_) => None,
    }
}

/// The error that ended an enumeration at `position`, if one did.
fn cause(position: Position) -> (cause: Option<Error>)
    ensures
        cause == position.failure(),
{
    match position {
        Position::Exhausted(cause) => cause,
        _ => None,
    }
}

/// The enumeration of the installed families, one native call per step.
///
/// It is lazy, runs forward only and cannot be restarted: once exhausted it
/// stays so, and [`families`] has to be called for a fresh one.
///
/// No step gives an error in place of an item. A failure ends the
/// enumeration early, and [`failure`](FamiliesIter::failure) then holds the cause,
/// which tells that end from the end of the list. A list that is not there
/// and a platform without a store are no failures: they are lists without
/// entries.
pub struct FamiliesIter {
    position: Position,
}

impl FamiliesIter {
    /// Where the enumeration stands.
    pub closed spec fn position(&self) -> Position {
        self.position
    }

    /// The call to make next, or `None` when the enumeration is exhausted.
    pub fn request(&self) -> (request: Option<Request>)
        ensures
            request_view(request) == self.position().request(Listing::Families),
    {
        next_request(Listing::Families, self.position)
    }

    /// Takes the reply to the call that [`request`](FamiliesIter::request) asked
    /// for and returns the family that it names, if it names one.
    pub fn next(&mut self, reply: &Reply) -> (item: Option<PackageFamilyName>)
        ensures
            final(self).position() == old(self).position().after(reply@),
            match old(self).position().item(reply@) {
                Some(units) => item matches Some(id) && id@ == units,
                None => item is None,
            },
    {
        match advance(&mut self.position, reply) {
            Some(name) => Some(PackageFamilyName::from_wstring(name)),
            None => None,
        }
    }

    /// Whether the enumeration is over.
    pub fn is_exhausted(&self) -> (over: bool)
        ensures
            over == self.position().exhausted(),
    {
        match self.position {
            Position::Exhausted(_) => true,
            _ => false,
        }
    }

    /// The error that ended the enumeration, if one did.
    pub fn failure(&self) -> (cause: Option<Error>)
        ensures
            cause == self.position().failure(),
    {
        cause(self.position)
    }
}

/// The families installed on this computer, as an enumeration that has not
/// asked anything of the store yet.
pub fn families() -> (iter: FamiliesIter)
    ensures
        iter.position() == Position::Unopened,
{
    FamiliesIter { position: Position::Unopened }
}

/// The enumeration of the installed packages, one native call per step.
///
/// It is lazy, runs forward only and cannot be restarted: once exhausted it
/// stays so, and [`packages`] has to be called for a fresh one.
///
/// No step gives an error in place of an item. A failure ends the
/// enumeration early, and [`failure`](PackagesIter::failure) then holds the cause,
/// which tells that end from the end of the list. A list that is not there
/// and a platform without a store are no failures: they are lists without
/// entries.
pub struct PackagesIter {
    position: Position,
}

impl PackagesIter {
    /// Where the enumeration stands.
    pub closed spec fn position(&self) -> Position {
        self.position
    }

    /// The call to make next, or `None` when the enumeration is exhausted.
    pub fn request(&self) -> (request: Option<Request>)
        ensures
            request_view(request) == self.position().request(Listing::Packages),
    {
        next_request(Listing::Packages, self.position)
    }

    /// Takes the reply to the call that [`request`](PackagesIter::request) asked
    /// for and returns the package that it names, if it names one.
    pub fn next(&mut self, reply: &Reply) -> (item: Option<PackageFullName>)
        ensures
            final(self).position() == old(self).position().after(reply@),
            match old(self).position().item(reply@) {
                Some(units) => item matches Some(id) && id@ == units,
                None => item is None,
            },
    {
        match advance(&mut self.position, reply) {
            Some(name) => Some(PackageFullName::from_wstring(name)),
            None => None,
        }
    }

    /// Whether the enumeration is over.
    pub fn is_exhausted(&self) -> (over: bool)
        ensures
            over == self.position().exhausted(),
    {
        match self.position {
            Position::Exhausted(_) => true,
            _ => false,
        }
    }

    /// The error that ended the enumeration, if one did.
    pub fn failure(&self) -> (cause: Option<Error>)
        ensures
            cause == self.position().failure(),
    {
        cause(self.position)
    }
}

/// The packages installed on this computer, as an enumeration that has not
/// asked anything of the store yet.
pub fn packages() -> (iter: PackagesIter)
    ensures
        iter.position() == Position::Unopened,
{
    PackagesIter { position: Position::Unopened }
}

/// How far the search for one entry of a list has come.
#[derive(Clone, Copy, Debug, PartialEq, Eq, Structural, Hash)]
pub enum Search {
    /// The list's key has not been opened yet.
    Unopened,
    /// The list's key is open; the entry's own key has not been tried yet.
    Opened,
    /// The search is over and the entry was not found.
    Absent,
    /// The search is over and the entry is there.
    Present,
}

impl Search {
    /// The call that the search for `identity` in `listing` needs next: none
    /// once it is over.
    pub open spec fn request(self, listing: Listing, identity: Seq<u16>) -> Option<RequestView> {
        match self {
            Search::Unopened => Some(listing.open_request()),
            Search::Opened => Some(
                RequestView::OpenSubkey {
                    sub_key: identity,
                    options: Options(0),
                    sam: SAM(0x0000_0009),
                },
            ),
            _ => None,
        }
    }

    /// How far the search has come once `reply` is in. Whatever goes wrong,
    /// on any doubt the entry counts as absent.
    pub open spec fn after(self, reply: ReplyView) -> Search {
        match self {
            Search::Unopened => if reply.open_outcome() is Ok {
                Search::Opened
            } else {
                Search::Absent
            },
            Search::Opened => if reply.open_outcome() is Ok {
                Search::Present
            } else {
                Search::Absent
            },
            over => over,
        }
    }
}

/// The question whether one family or package is installed.
pub struct Membership {
    listing: Listing,
    identity: WString,
    search: Search,
}

/// A [`Membership`] as plain values.
pub ghost struct MembershipView {
    pub listing: Listing,
    pub identity: Seq<u16>,
    pub search: Search,
}

impl View for Membership {
    type V = MembershipView;

    closed spec fn view(&self) -> MembershipView {
        MembershipView { listing: self.listing, identity: self.identity@, search: self.search }
    }
}

impl MembershipView {
    /// The call to make next.
    pub open spec fn request(self) -> Option<RequestView> {
        self.search.request(self.listing, self.identity)
    }

    /// The question once `reply` is in.
    pub open spec fn after(self, reply: ReplyView) -> MembershipView {
        MembershipView { search: self.search.after(reply), ..self }
    }

    /// Whether the entry was found.
    pub open spec fn found(self) -> bool {
        self.search == Search::Present
    }
}

impl Membership {
    /// The call to make next, or `None` when the answer is known.
    pub fn request(&self) -> (request: Option<Request>)
        ensures
            request_view(request) == self@.request(),
    {
        match self.search {
            Search::Unopened => Some(self.listing.open()),
            Search::Opened => Some(
                Request::OpenSubkey {
                    sub_key: self.identity.clone(),
                    options: Options::none(),
                    sam: SAM::read_only(),
                },
            ),
            _ => None,
        }
    }

    /// Takes the reply to the call that [`request`](Membership::request)
    /// asked for.
    pub fn respond(&mut self, reply: &Reply)
        ensures
            final(self)@ == old(self)@.after(reply@),
    {
        let opened = reply.opened().is_ok();
        self.search =
        match self.search {
            Search::Unopened => if opened {
                Search::Opened
            } else {
                Search::Absent
            },
            Search::Opened => if opened {
                Search::Present
            } else {
                Search::Absent
            },
            over => over,
        };
    }

    /// Whether the entry is installed: `true` only after both its list and
    /// its own key could be opened.
    pub fn found(&self) -> (found: bool)
        ensures
            found == self@.found(),
    {
        self.search == Search::Present
    }
}

/// The question whether the family `fam` is installed, with nothing asked of
/// the store yet.
pub fn has_family<T: Into<PackageFamilyName>>(fam: T) -> (question: Membership)
    ensures
        exists|id: PackageFamilyName| #[trigger]
            call_ensures(<T as Into<PackageFamilyName>>::into, (fam,), id) && question@ == (
            MembershipView { listing: Listing::Families, identity: id@, search: Search::Unopened }),
{
    let fam: PackageFamilyName = fam.into();
    Membership { listing: Listing::Families, identity: fam.into_wstring(), search: Search::Unopened }
}

/// The question whether the package `pfn` is installed, with nothing asked of
/// the store yet.
pub fn has_package<T: Into<PackageFullName>>(pfn: T) -> (question: Membership)
    ensures
        exists|id: PackageFullName| #[trigger]
            call_ensures(<T as Into<PackageFullName>>::into, (pfn,), id) && question@ == (
            MembershipView { listing: Listing::Packages, identity: id@, search: Search::Unopened }),
{
    let pfn: PackageFullName = pfn.into();
    Membership { listing: Listing::Packages, identity: pfn.into_wstring(), search: Search::Unopened }
}

/// The installation of a package from a file, with nothing done yet. The
/// path of the file stays with whoever drives the installation.
pub fn add_appx_package() -> (install: Install)
    ensures
        install == Install::Unchecked,
{
    Install::Unchecked
}

/// Where an enumeration that stands at `position` has come after the
/// replies `replies`, and the names that they brought, in their order.
pub open spec fn run(position: Position, replies: Seq<ReplyView>) -> (Position, Seq<Seq<u16>>)
    decreases replies.len(),
{
    if replies.len() == 0 {
        (position, Seq::empty())
    } else {
        let (end, later) = run(position.after(replies[0]), replies.drop_first());
        match position.item(replies[0]) {
            Some(name) => (end, seq![name] + later),
            None => (end, later),
        }
    }
}

/// Nothing comes after the end: whatever replies still arrive, an exhausted
/// enumeration stays where it is and brings no name.
pub proof fn lemma_exhausted_runs_nowhere(position: Position, replies: Seq<ReplyView>)
    requires
        position.exhausted(),
    ensures
        run(position, replies) == (position, Seq::<Seq<u16>>::empty()),
    decreases replies.len(),
{
    if replies.len() > 0 {
        lemma_exhausted_runs_nowhere(position, replies.drop_first());
    }
}

/// A list that is not there is a list without entries: the enumeration ends
/// at its first step exactly as it ends when the list's key opens and the
/// store reports no more entries at once. Neither way brings a name and
/// neither counts as a failure, whatever replies follow.
pub proof fn lemma_absent_list_is_empty_list(
    absent: ReplyView,
    opened: ReplyView,
    end: ReplyView,
    rest: Seq<ReplyView>,
)
    requires
        absent.open_outcome() == Err::<(), Error>(Error::NotFound),
        opened.open_outcome() is Ok,
        end.name_outcome() == Ok::<Option<Seq<u16>>, Error>(None),
    ensures
        run(Position::Unopened, seq![absent] + rest) == run(
            Position::Unopened,
            seq![opened, end] + rest,
        ),
        run(Position::Unopened, seq![absent] + rest) == (
            Position::Exhausted(None),
            Seq::<Seq<u16>>::empty(),
        ),
{
    let over = Position::Exhausted(None);
    lemma_exhausted_runs_nowhere(over, rest);
    let short = seq![absent] + rest;
    assert(short.drop_first() =~= rest);
    let long = seq![opened, end] + rest;
    assert(long.drop_first() =~= seq![end] + rest);
    assert((seq![end] + rest).drop_first() =~= rest);
    assert(run(Position::At(0), seq![end] + rest) == (over, Seq::<Seq<u16>>::empty()));
}

/// On a platform without a store both lists are empty: the first reply
/// exhausts the enumeration, without a name and without a failure, and it
/// asks for nothing more.
pub proof fn lemma_unsupported_list_is_empty(listing: Listing, rest: Seq<ReplyView>)
    ensures
        run(Position::Unopened, seq![ReplyView::Unsupported] + rest) == (
            Position::Exhausted(None),
            Seq::<Seq<u16>>::empty(),
        ),
        Position::Unopened.after(ReplyView::Unsupported).request(listing) is None,
{
    lemma_exhausted_runs_nowhere(Position::Exhausted(None), rest);
    assert((seq![ReplyView::Unsupported] + rest).drop_first() =~= rest);
}

/// The names come out in the order of the store: an enumeration that reads a
/// name and goes on brings that name first and then what the further replies
/// bring.
pub proof fn lemma_names_keep_their_order(index: u32, named: ReplyView, rest: Seq<ReplyView>)
    requires
        named.name_outcome() matches Ok(Some(_)),
    ensures
        run(Position::At(index), seq![named] + rest).1 == seq![named.name_outcome()->Ok_0->Some_0]
            + run(Position::At(index).after(named), rest).1,
{
    assert((seq![named] + rest).drop_first() =~= rest);
}

/// An exhausted enumeration stays exhausted: it asks for nothing, no reply
/// brings an item and no reply changes where it stands.
pub proof fn lemma_exhausted_is_final(position: Position, listing: Listing, reply: ReplyView)
    requires
        position.exhausted(),
    ensures
        position.request(listing) is None,
        position.item(reply) is None,
        position.after(reply) == position,
{
}

/// An enumeration moves forward only: a reply takes it from child `index` to
/// child `index + 1`, when it brought a name, or ends it. It brings a name
/// exactly when the store reported one.
pub proof fn lemma_enumeration_moves_forward(index: u32, reply: ReplyView)
    ensures
        Position::At(index).after(reply).exhausted() || (index < u32::MAX && Position::At(
            index,
        ).after(reply) == Position::At((index + 1) as u32)),
        Position::At(index).item(reply) is Some <==> reply.name_outcome() matches Ok(Some(_)),
        Position::At(index).item(reply) is None ==> Position::At(index).after(reply).exhausted(),
{
}

/// An entry is found only when both its list and its own key could be opened;
/// any failure on the way means that it is not. Two replies settle the
/// question, and a list that cannot be opened settles it after one.
pub proof fn lemma_found_needs_both_keys(question: MembershipView, first: ReplyView, second: ReplyView)
    requires
        question.search == Search::Unopened,
    ensures
        question.after(first).after(second).found() <==> first.open_outcome() is Ok
            && second.open_outcome() is Ok,
        question.after(first).after(second).request() is None,
        first.open_outcome() is Err ==> !question.after(first).found() && question.after(
            first,
        ).request() is None,
{
}

/// On a platform without a store nothing is installed: the first reply
/// settles the question, and the answer is no.
pub proof fn lemma_unsupported_means_absent(question: MembershipView)
    requires
        question.search == Search::Unopened,
    ensures
        !question.after(ReplyView::Unsupported).found(),
        question.after(ReplyView::Unsupported).request() is None,
{
}

} // verus!
