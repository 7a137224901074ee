//! What is asked of the hierarchical store and what its answers mean.
//!
//! Nothing here touches the store. A [`Request`] describes one native call,
//! a [`Reply`] holds what the call gave back, and the functions of this module
//! decide what may be asked and how an answer is read.

use crate::error::Error;
use crate::wstring::WString;
use vstd::prelude::*;

verus! {

/// Status of a native call that succeeded.
pub const ERROR_SUCCESS: u32 = 0;

/// Status for a key or value that does not exist.
pub const ERROR_FILE_NOT_FOUND: u32 = 2;

/// Status for a path of which some part does not exist.
pub const ERROR_PATH_NOT_FOUND: u32 = 3;

/// Status for an access that the caller's rights do not allow.
pub const ERROR_ACCESS_DENIED: u32 = 5;

/// Status for an argument that the native call does not accept.
pub const ERROR_INVALID_PARAMETER: u32 = 87;

/// Status for a result that is larger than the buffer offered for it.
pub const ERROR_MORE_DATA: u32 = 234;

/// Status of an enumeration step at an index past the last entry.
pub const ERROR_NO_MORE_ITEMS: u32 = 259;

/// Status for a stored value whose kind is not the kind asked for.
pub const ERROR_UNSUPPORTED_TYPE: u32 = 1630;

/// Options for opening a key: a mask of native option bits.
#[derive(Clone, Copy, Debug, PartialEq, Eq, Structural, PartialOrd, Ord, Hash)]
pub struct Options(pub u32);

impl Options {
    /// No option.
    pub fn none() -> (options: Options)
        ensures
            options == Options(0),
    {
        Options(0)
    }

    /// Open the symbolic link itself, not the key it points to.
    pub fn open_link() -> (options: Options)
        ensures
            options == Options(0x0000_0008),
    {
        Options(0x0000_0008)
    }
}

/// Access rights asked for when a key is opened: a mask of native right bits.
#[derive(Clone, Copy, Debug, PartialEq, Eq, Structural, PartialOrd, Ord, Hash)]
pub struct SAM(pub u32);

impl SAM {
    /// Every right on a key.
    pub fn all_access() -> (sam: SAM)
        ensures
            sam == SAM(0x000F_003F),
    {
        SAM(0x000F_003F)
    }

    /// The rights that reading takes: to query values (`0x1`) and to
    /// enumerate sub-keys (`0x8`).
    pub fn read_only() -> (sam: SAM)
        ensures
            sam == SAM(0x0000_0009),
    {
        SAM(0x0000_0009)
    }
}

/// The well-known keys from which every path starts.
#[derive(Clone, Copy, Debug, PartialEq, Eq, Structural, Hash)]
pub enum Root {
    ClassesRoot,
    CurrentConfig,
    CurrentUser,
    LocalMachine,
    Users,
}

/// The kinds of stored value that can be asked for.
#[derive(Clone, Copy, Debug, PartialEq, Eq, Structural, Hash)]
pub enum ValueKind {
    /// Text: `0`-terminated code units.
    Text,
    /// A 32-bit number.
    Dword,
    /// A 64-bit number.
    Qword,
}

impl ValueKind {
    /// The native flag that restricts a lookup to this kind.
    pub open spec fn spec_flags(self) -> u32 {
        match self {
            ValueKind::Text => 0x0000_0002,
            ValueKind::Dword => 0x0000_0010,
            ValueKind::Qword => 0x0000_0040,
        }
    }

    /// The native flag that restricts a lookup to this kind.
    #[verifier::when_used_as_spec(spec_flags)]
    pub fn flags(self) -> (flags: u32)
        ensures
            flags == self.spec_flags(),
    {
        match self {
            ValueKind::Text => 0x0000_0002,
            ValueKind::Dword => 0x0000_0010,
            ValueKind::Qword => 0x0000_0040,
        }
    }

    /// Bytes that one element of a value of this kind takes.
    pub open spec fn spec_unit_size(self) -> usize {
        match self {
            ValueKind::Text => 2,
            ValueKind::Dword => 4,
            ValueKind::Qword => 8,
        }
    }

    /// Bytes that one element of a value of this kind takes.
    #[verifier::when_used_as_spec(spec_unit_size)]
    pub fn unit_size(self) -> (size: usize)
        ensures
            size == self.spec_unit_size(),
    {
        match self {
            ValueKind::Text => 2,
            ValueKind::Dword => 4,
            ValueKind::Qword => 8,
        }
    }
}

/// Longest name that a key can have, in code units.
pub const MAX_KEY_NAME: usize = 255;

/// Code units in a [`NameBuffer`]: the longest name and its terminator.
pub const NAME_CAPACITY: usize = MAX_KEY_NAME + 1;

/// The buffer that receives the name of an enumerated key.
#[derive(Clone, Copy, Debug, PartialEq, Eq)]
pub struct NameBuffer(pub [u16; NAME_CAPACITY]);

impl NameBuffer {
    /// Capacity of the buffer in code units.
    pub fn len(&self) -> (n: u32)
        ensures
            n == NAME_CAPACITY,
    {
        NAME_CAPACITY as u32
    }
}

impl Default for NameBuffer {
    /// A buffer of zeros.
    fn default() -> (buffer: NameBuffer)
        ensures
            buffer.0@ == Seq::new(NAME_CAPACITY as nat, |i: int| 0u16),
    {
        NameBuffer([0u16; NAME_CAPACITY])
    }
}

/// Whether `path` ends in the terminator that native calls rely on.
pub open spec fn terminated(path: Seq<u16>) -> bool {
    path.len() > 0 && path.last() == 0
}

/// Takes a path that has to include its terminator. A path without one is
/// refused as an invalid argument; of one that has it, the string in front of
/// the terminator is returned.
pub fn terminated_path(path: &[u16]) -> (checked: Result<WString, Error>)
    ensures
        match checked {
            Ok(s) => terminated(path@) && s@ == path@.drop_last(),
            Err(e) => !terminated(path@) && e == Error::InvalidArgument,
        },
{
    let len = path.len();
    if len == 0 || path[len - 1] != 0 {
        return Err(Error::InvalidArgument);
    }
    Ok(WString::from(&path[0..len - 1]))
}

/// [`terminated_path`] for a path that may be left out.
pub fn terminated_option(path: Option<&[u16]>) -> (checked: Result<Option<WString>, Error>)
    ensures
        match checked {
            Ok(None) => path is None,
            Ok(Some(s)) => path matches Some(p) && terminated(p@) && s@ == p@.drop_last(),
            Err(e) => path matches Some(p) && !terminated(p@) && e == Error::InvalidArgument,
        },
{
    match path {
        None => Ok(None),
        Some(p) => match terminated_path(p) {
            Ok(s) => Ok(Some(s)),
            Err(e) => Err(e),
        },
    }
}

/// One native call for the driver of the store to make.
///
/// Every path in a request is a [`WString`], so its terminator is in place
/// when the driver passes `units0()` on.
#[derive(Debug, PartialEq, Eq)]
pub enum Request {
    /// Open the key at `sub_key` below a well-known root. The key that this
    /// opens is the one that the later requests of the same exchange refer to.
    OpenRoot { root: Root, sub_key: WString, options: Options, sam: SAM },
    /// Open the key at `sub_key` below the open key, and close it again.
    OpenSubkey { sub_key: WString, options: Options, sam: SAM },
    /// Read the name of the child with number `index` of the open key into a
    /// fresh [`NameBuffer`].
    EnumKey { index: u32 },
    /// Read the value `name` of the key at `sub_path` below the open key,
    /// provided it is of kind `kind`, into a buffer of `capacity` elements.
    /// Without `sub_path` the open key itself is meant, without `name` its
    /// unnamed value.
    GetValue { sub_path: Option<WString>, name: Option<WString>, kind: ValueKind, capacity: usize },
}

/// A [`Request`] with its paths as sequences of code units, terminator
/// excluded.
pub ghost enum RequestView {
    OpenRoot { root: Root, sub_key: Seq<u16>, options: Options, sam: SAM },
    OpenSubkey { sub_key: Seq<u16>, options: Options, sam: SAM },
    EnumKey { index: u32 },
    GetValue {
        sub_path: Option<Seq<u16>>,
        name: Option<Seq<u16>>,
        kind: ValueKind,
        capacity: usize,
    },
}

/// The code units of a path that may be left out.
pub open spec fn option_units(path: Option<WString>) -> Option<Seq<u16>> {
    match path {
        Some(s) => Some(s@),
        None => None,
    }
}

impl View for Request {
    type V = RequestView;

    open spec fn view(&self) -> RequestView {
        match *self {
            Request::OpenRoot { root, sub_key, options, sam } => RequestView::OpenRoot {
                root,
                sub_key: sub_key@,
                options,
                sam,
            },
            Request::OpenSubkey { sub_key, options, sam } => RequestView::OpenSubkey {
                sub_key: sub_key@,
                options,
                sam,
            },
            Request::EnumKey { index } => RequestView::EnumKey { index },
            Request::GetValue { sub_path, name, kind, capacity } => RequestView::GetValue {
                sub_path: option_units(sub_path),
                name: option_units(name),
                kind,
                capacity,
            },
        }
    }
}

/// Whether a buffer of `capacity` elements of kind `kind` has a size in bytes
/// that the native call can be told.
pub open spec fn readable(kind: ValueKind, capacity: usize) -> bool {
    capacity * kind.spec_unit_size() <= u32::MAX
}

impl Request {
    /// The request to open `sub_key` below `root`. `sub_key` has to include
    /// its terminator.
    pub fn open_root(root: Root, sub_key: &[u16], options: Options, sam: SAM) -> (request: Result<
        Request,
        Error,
    >)
        ensures
            match request {
                Ok(r) => terminated(sub_key@) && r@ == (RequestView::OpenRoot {
                    root,
                    sub_key: sub_key@.drop_last(),
                    options,
                    sam,
                }),
                Err(e) => !terminated(sub_key@) && e == Error::InvalidArgument,
            },
    {
        match terminated_path(sub_key) {
            Ok(sub_key) => Ok(Request::OpenRoot { root, sub_key, options, sam }),
            Err(e) => Err(e),
        }
    }

    /// The request to open `sub_key` below the open key. `sub_key` has to
    /// include its terminator.
    pub fn open_subkey(sub_key: &[u16], options: Options, sam: SAM) -> (request: Result<
        Request,
        Error,
    >)
        ensures
            match request {
                Ok(r) => terminated(sub_key@) && r@ == (RequestView::OpenSubkey {
                    sub_key: sub_key@.drop_last(),
                    options,
                    sam,
                }),
                Err(e) => !terminated(sub_key@) && e == Error::InvalidArgument,
            },
    {
        match terminated_path(sub_key) {
            Ok(sub_key) => Ok(Request::OpenSubkey { sub_key, options, sam }),
            Err(e) => Err(e),
        }
    }

    /// The request for the name of child number `index` of the open key.
    pub fn enum_key(index: u32) -> (request: Request)
        ensures
            request@ == (RequestView::EnumKey { index }),
    {
        Request::EnumKey { index }
    }

    /// The request for a value of kind `kind`. A path that is given has to
    /// include its terminator, and the buffer's size in bytes has to fit the
    /// 32 bits in which the native call takes it.
    pub fn get_value(
        sub_key: Option<&[u16]>,
        value: Option<&[u16]>,
        kind: ValueKind,
        capacity: usize,
    ) -> (request: Result<Request, Error>)
        ensures
            match request {
                Ok(r) => {
                    &&& sub_key matches Some(p) ==> terminated(p@)
                    &&& value matches Some(p) ==> terminated(p@)
                    &&& readable(kind, capacity)
                    &&& r@ == (RequestView::GetValue {
                        sub_path: match sub_key {
                            Some(p) => Some(p@.drop_last()),
                            None => None,
                        },
                        name: match value {
                            Some(p) => Some(p@.drop_last()),
                            None => None,
                        },
                        kind,
                        capacity,
                    })
                },
                Err(e) => {
                    &&& e == Error::InvalidArgument
                    &&& {
                        ||| sub_key matches Some(p) && !terminated(p@)
                        ||| value matches Some(p) && !terminated(p@)
                        ||| !readable(kind, capacity)
                    }
                },
            },
    {
        let sub_key = match terminated_option(sub_key) {
            Ok(s) => s,
            Err(e) => {
                return Err(e);
            },
        };
        let value = match terminated_option(value) {
            Ok(s) => s,
            Err(e) => {
                return Err(e);
            },
        };
        let most = 0xFFFF_FFFF / kind.unit_size();
        assert(readable(kind, capacity) <==> capacity <= most) by {
            match kind {
                ValueKind::Text => {},
                ValueKind::Dword => {},
                ValueKind::Qword => {},
            }
        }
        if capacity > most {
            return Err(Error::InvalidArgument);
        }
        Ok(Request::GetValue { sub_path: sub_key, name: value, kind, capacity })
    }
}

/// What a native call gave back, as the driver of the store found it.
///
/// A reply is taken as it comes: the functions that read one do not rely on
/// the status and the length being what a well-behaved store would report.
#[derive(Debug, PartialEq, Eq)]
pub enum Reply {
    /// There is no store on this platform; no call was made.
    Unsupported,
    /// An attempt to open a key ended with `status`.
    Opened { status: u32 },
    /// An enumeration step ended with `status`; on success the first `len`
    /// code units of `name` are the child's name.
    Name { status: u32, len: u32, name: NameBuffer },
    /// A lookup of a 32-bit number ended with `status`; the number is the
    /// one element of its buffer.
    Dword { status: u32, dword: u32 },
    /// A lookup of a 64-bit number ended with `status`; the number is the
    /// one element of its buffer.
    Qword { status: u32, qword: u64 },
    /// A lookup of text ended with `status`; on success `len` bytes of the
    /// buffer `data` were filled.
    Text { status: u32, len: u32, data: Vec<u16> },
}

/// `units` without its last unit where that is a `0`: a stored text may or
/// may not bring a terminator along.
pub open spec fn trimmed(units: Seq<u16>) -> Seq<u16> {
    if terminated(units) {
        units.drop_last()
    } else {
        units
    }
}

/// Drops one trailing `0` from `units`, if there is one.
pub fn trim_u16(units: &[u16]) -> (text: &[u16])
    ensures
        text@ == trimmed(units@),
{
    let len = units.len();
    if len != 0 && units[len - 1] == 0 {
        &units[0..len - 1]
    } else {
        units
    }
}

/// A [`Reply`] with its buffers as sequences of code units.
pub ghost enum ReplyView {
    Unsupported,
    Opened { status: u32 },
    Name { status: u32, len: u32, name: Seq<u16> },
    Dword { status: u32, dword: u32 },
    Qword { status: u32, qword: u64 },
    Text { status: u32, len: u32, data: Seq<u16> },
}

impl View for Reply {
    type V = ReplyView;

    open spec fn view(&self) -> ReplyView {
        match *self {
            Reply::Unsupported => ReplyView::Unsupported,
            Reply::Opened { status } => ReplyView::Opened { status },
            Reply::Name { status, len, name } => ReplyView::Name { status, len, name: name.0@ },
            Reply::Dword { status, dword } => ReplyView::Dword { status, dword },
            Reply::Qword { status, qword } => ReplyView::Qword { status, qword },
            Reply::Text { status, len, data } => ReplyView::Text { status, len, data: data@ },
        }
    }
}

impl ReplyView {
    /// What the reply means for an attempt to open a key: success on the
    /// status of success, the error of the status otherwise. A reply to
    /// another kind of request is an invalid argument.
    pub open spec fn open_outcome(self) -> Result<(), Error> {
        match self {
            ReplyView::Unsupported => Err(Error::Unsupported),
            ReplyView::Opened { status } => if status == ERROR_SUCCESS {
                Ok(())
            } else {
                Err(Error::spec_from_status(status))
            },
            _ => Err(Error::InvalidArgument),
        }
    }

    /// What the reply means for an enumeration step: the child's name, or
    /// `None` for "no more entries", which is no error. A length that the
    /// name buffer cannot hold is reported as a buffer too small.
    pub open spec fn name_outcome(self) -> Result<Option<Seq<u16>>, Error> {
        match self {
            ReplyView::Unsupported => Err(Error::Unsupported),
            ReplyView::Name { status, len, name } => if status == ERROR_SUCCESS {
                if len <= NAME_CAPACITY {
                    Ok(Some(name.take(len as int)))
                } else {
                    Err(Error::BufferTooSmall)
                }
            } else if status == ERROR_NO_MORE_ITEMS {
                Ok(None)
            } else {
                Err(Error::spec_from_status(status))
            },
            _ => Err(Error::InvalidArgument),
        }
    }

    /// What the reply means for the lookup of a 32-bit number.
    pub open spec fn dword_outcome(self) -> Result<u32, Error> {
        match self {
            ReplyView::Unsupported => Err(Error::Unsupported),
            ReplyView::Dword { status, dword } => if status == ERROR_SUCCESS {
                Ok(dword)
            } else {
                Err(Error::spec_from_status(status))
            },
            _ => Err(Error::InvalidArgument),
        }
    }

    /// What the reply means for the lookup of a 64-bit number.
    pub open spec fn qword_outcome(self) -> Result<u64, Error> {
        match self {
            ReplyView::Unsupported => Err(Error::Unsupported),
            ReplyView::Qword { status, qword } => if status == ERROR_SUCCESS {
                Ok(qword)
            } else {
                Err(Error::spec_from_status(status))
            },
            _ => Err(Error::InvalidArgument),
        }
    }

    /// What the reply means for the lookup of text: the code units that were
    /// filled in, two bytes each, without a trailing terminator. A length
    /// that the buffer cannot hold is reported as a buffer too small.
    pub open spec fn text_outcome(self) -> Result<Seq<u16>, Error> {
        match self {
            ReplyView::Unsupported => Err(Error::Unsupported),
            ReplyView::Text { status, len, data } => if status == ERROR_SUCCESS {
                if len / 2 <= data.len() {
                    Ok(trimmed(data.take(len as int / 2)))
                } else {
                    Err(Error::BufferTooSmall)
                }
            } else {
                Err(Error::spec_from_status(status))
            },
            _ => Err(Error::InvalidArgument),
        }
    }
}

/// Without a store every call fails, and fails as unsupported, whatever was
/// asked for.
pub proof fn lemma_unsupported_reply_fails()
    ensures
        ReplyView::Unsupported.open_outcome() == Err::<(), Error>(Error::Unsupported),
        ReplyView::Unsupported.name_outcome() == Err::<Option<Seq<u16>>, Error>(Error::Unsupported),
        ReplyView::Unsupported.dword_outcome() == Err::<u32, Error>(Error::Unsupported),
        ReplyView::Unsupported.qword_outcome() == Err::<u64, Error>(Error::Unsupported),
        ReplyView::Unsupported.text_outcome() == Err::<Seq<u16>, Error>(Error::Unsupported),
{
}

/// "No more entries" is the one status besides success that is no error, and
/// it is none for an enumeration step only.
pub proof fn lemma_no_more_items_is_no_error(len: u32, name: Seq<u16>)
    ensures
        (ReplyView::Name { status: ERROR_NO_MORE_ITEMS, len, name }).name_outcome() == Ok::<
            Option<Seq<u16>>,
            Error,
        >(None),
        (ReplyView::Opened { status: ERROR_NO_MORE_ITEMS }).open_outcome() is Err,
{
}

impl Reply {
    /// Reads the reply to an attempt to open a key.
    pub fn opened(&self) -> (outcome: Result<(), Error>)
        ensures
            outcome == self@.open_outcome(),
    {
        match self {
            Reply::Unsupported => Err(Error::Unsupported),
            Reply::Opened { status } => if *status == ERROR_SUCCESS {
                Ok(())
            } else {
                Err(Error::from_status(*status))
            },
            _ => Err(Error::InvalidArgument),
        }
    }

    /// Reads the reply to an enumeration step.
    pub fn child_name(&self) -> (outcome: Result<Option<&[u16]>, Error>)
        ensures
            match self@.name_outcome() {
                Ok(Some(units)) => outcome matches Ok(Some(name)) && name@ == units,
                Ok(None) => outcome matches Ok(None),
                Err(e) => outcome matches Err(f) && f == e,
            },
    {
        match self {
            Reply::Unsupported => Err(Error::Unsupported),
            Reply::Name { status, len, name } => if *status == ERROR_SUCCESS {
                if *len as usize <= NAME_CAPACITY {
                    Ok(Some(&name.0[0..*len as usize]))
                } else {
                    Err(Error::BufferTooSmall)
                }
            } else if *status == ERROR_NO_MORE_ITEMS {
                Ok(None)
            } else {
                Err(Error::from_status(*status))
            },
            _ => Err(Error::InvalidArgument),
        }
    }

    /// Reads the reply to the lookup of a 32-bit number.
    pub fn dword(&self) -> (outcome: Result<u32, Error>)
        ensures
            outcome == self@.dword_outcome(),
    {
        match self {
            Reply::Unsupported => Err(Error::Unsupported),
            Reply::Dword { status, dword } => if *status == ERROR_SUCCESS {
                Ok(*dword)
            } else {
                Err(Error::from_status(*status))
            },
            _ => Err(Error::InvalidArgument),
        }
    }

    /// Reads the reply to the lookup of a 64-bit number.
    pub fn qword(&self) -> (outcome: Result<u64, Error>)
        ensures
            outcome == self@.qword_outcome(),
    {
        match self {
            Reply::Unsupported => Err(Error::Unsupported),
            Reply::Qword { status, qword } => if *status == ERROR_SUCCESS {
                Ok(*qword)
            } else {
                Err(Error::from_status(*status))
            },
            _ => Err(Error::InvalidArgument),
        }
    }

    /// Reads the reply to the lookup of text.
    pub fn text(&self) -> (outcome: Result<&[u16], Error>)
        ensures
            match self@.text_outcome() {
                Ok(units) => outcome matches Ok(text) && text@ == units,
                Err(e) => outcome matches Err(f) && f == e,
            },
    {
        match self {
            Reply::Unsupported => Err(Error::Unsupported),
            Reply::Text { status, len, data } => if *status == ERROR_SUCCESS {
                let filled = (*len / 2) as usize;
                if filled <= data.len() {
                    Ok(trim_u16(&data.as_slice()[0..filled]))
                } else {
                    Err(Error::BufferTooSmall)
                }
            } else {
                Err(Error::from_status(*status))
            },
            _ => Err(Error::InvalidArgument),
        }
    }
}

} // verus!
