//! Resolution of requested access mode, creation mode and custom flags into
//! OS open flags. The flag constants come from libc; the values stated for
//! them are the ones libc defines for the mainstream Linux ports (x86_64
//! and aarch64 among others).

use vstd::prelude::*;

use crate::errors::OsError;

verus! {

/// Relies on libc::O_RDONLY: open for reading only.
#[verifier::external_body]
pub fn o_rdonly() -> (r: i32)
    ensures
        r == 0,
{
    libc::O_RDONLY
}

/// Relies on libc::O_WRONLY: open for writing only.
#[verifier::external_body]
pub fn o_wronly() -> (r: i32)
    ensures
        r == 1,
{
    libc::O_WRONLY
}

/// Relies on libc::O_RDWR: open for reading and writing.
#[verifier::external_body]
pub fn o_rdwr() -> (r: i32)
    ensures
        r == 2,
{
    libc::O_RDWR
}

/// Relies on libc::O_ACCMODE: the mask covering the access-mode bits.
#[verifier::external_body]
pub fn o_accmode() -> (r: i32)
    ensures
        r == 3,
{
    libc::O_ACCMODE
}

/// Relies on libc::O_CREAT: create the file if it does not exist.
#[verifier::external_body]
pub fn o_creat() -> (r: i32)
    ensures
        r == 64,
{
    libc::O_CREAT
}

/// Relies on libc::O_EXCL: with O_CREAT, fail if the file already exists.
#[verifier::external_body]
pub fn o_excl() -> (r: i32)
    ensures
        r == 128,
{
    libc::O_EXCL
}

/// Relies on libc::O_TRUNC: truncate an existing file to length zero.
#[verifier::external_body]
pub fn o_trunc() -> (r: i32)
    ensures
        r == 512,
{
    libc::O_TRUNC
}

/// Relies on libc::O_APPEND: every write lands at the current end of file.
#[verifier::external_body]
pub fn o_append() -> (r: i32)
    ensures
        r == 1024,
{
    libc::O_APPEND
}

/// Relies on libc::O_CLOEXEC: close the descriptor on exec.
#[verifier::external_body]
pub fn o_cloexec() -> (r: i32)
    ensures
        r == 0x80000,
{
    libc::O_CLOEXEC
}

/// Requested access and creation behaviour for an open, plus custom flags
/// OR'd in with their access-mode bits masked out.
#[derive(Clone, Copy, Debug)]
pub struct OpenOptions {
    pub read: bool,
    pub write: bool,
    pub append: bool,
    pub truncate: bool,
    pub create: bool,
    pub create_new: bool,
    pub custom_flags: i32,
    pub mode: u32,
}

/// The access-mode bits an option set resolves to, or `None` when no access
/// was requested at all.
pub open spec fn spec_access_mode(o: OpenOptions) -> Option<i32> {
    match (o.read, o.write, o.append) {
        (true, false, false) => Some(0i32),
        (false, true, false) => Some(1i32),
        (true, true, false) => Some(2i32),
        (false, _, true) => Some(1i32 | 1024i32),
        (true, _, true) => Some(2i32 | 1024i32),
        (false, false, false) => None,
    }
}

/// The creation-mode bits, or `None` when the combination is contradictory:
/// creating or truncating without write access, or truncating an
/// append-only open that is not `create_new`.
pub open spec fn spec_creation_mode(o: OpenOptions) -> Option<i32> {
    if !o.write && !o.append && (o.create || o.truncate || o.create_new) {
        None
    } else if o.append && o.truncate && !o.create_new {
        None
    } else {
        match (o.create, o.truncate, o.create_new) {
            (false, false, false) => Some(0i32),
            (true, false, false) => Some(64i32),
            (false, true, false) => Some(512i32),
            (true, true, false) => Some(64i32 | 512i32),
            (_, _, true) => Some(64i32 | 128i32),
        }
    }
}

/// The full OS flags: close-on-exec, OR the access mode, OR the creation
/// mode, OR the custom flags with their access-mode bits masked out.
pub open spec fn spec_flags(o: OpenOptions) -> Option<i32> {
    match (spec_access_mode(o), spec_creation_mode(o)) {
        (Some(a), Some(c)) => Some(0x80000i32 | a | c | (o.custom_flags & !3i32)),
        _ => None,
    }
}

/// Whenever an option set resolves at all, the access-mode bits of the
/// final flags are exactly the resolved access mode's low bits — the
/// invalid value 3 can never appear, whatever the custom flags were.
pub proof fn lemma_flags_decode(o: OpenOptions)
    requires
        spec_flags(o) is Some,
    ensures
        ({
            let f = spec_flags(o)->Some_0;
            &&& f & 3i32 == spec_access_mode(o)->Some_0 & 3i32
            &&& (f & 3i32 == 0 || f & 3i32 == 1 || f & 3i32 == 2)
        }),
{
    let a = spec_access_mode(o)->Some_0;
    let c = spec_creation_mode(o)->Some_0;
    let m = o.custom_flags;
    assert(a == 0i32 || a == 1i32 || a == 2i32 || a == (1i32 | 1024i32) || a == (2i32
        | 1024i32));
    assert(c == 0i32 || c == 64i32 || c == 512i32 || c == (64i32 | 512i32) || c == (64i32
        | 128i32));
    assert((1i32 | 1024i32) == 1025i32 && (2i32 | 1024i32) == 1026i32 && (64i32 | 512i32)
        == 576i32 && (64i32 | 128i32) == 192i32) by (bit_vector);
    assert(((0x80000i32 | a | c | (m & !3i32)) & 3i32 == a & 3i32) && (a & 3i32 == 0i32 || a
        & 3i32 == 1i32 || a & 3i32 == 2i32)) by (bit_vector)
        requires
            a == 0i32 || a == 1i32 || a == 2i32 || a == 1025i32 || a == 1026i32,
            c == 0i32 || c == 64i32 || c == 512i32 || c == 576i32 || c == 192i32,
    ;
}

impl OpenOptions {
    /// A blank option set: no access requested, nothing created, default
    /// permission bits.
    pub fn new() -> (r: OpenOptions)
        ensures
            r == (OpenOptions {
                read: false,
                write: false,
                append: false,
                truncate: false,
                create: false,
                create_new: false,
                custom_flags: 0i32,
                mode: 0o644u32,
            }),
    {
        OpenOptions {
            read: false,
            write: false,
            append: false,
            truncate: false,
            create: false,
            create_new: false,
            custom_flags: 0,
            mode: 0o644,
        }
    }

    pub fn get_access_mode(&self) -> (r: Result<i32, OsError>)
        ensures
            r == match spec_access_mode(*self) {
                Some(f) => Result::<i32, OsError>::Ok(f),
                None => Result::<i32, OsError>::Err(OsError::InvalidInput),
            },
    {
        if self.append {
            if self.read {
                Ok(o_rdwr() | o_append())
            } else {
                Ok(o_wronly() | o_append())
            }
        } else if self.read && self.write {
            Ok(o_rdwr())
        } else if self.write {
            Ok(o_wronly())
        } else if self.read {
            Ok(o_rdonly())
        } else {
            Err(OsError::InvalidInput)
        }
    }

    pub fn get_creation_mode(&self) -> (r: Result<i32, OsError>)
        ensures
            r == match spec_creation_mode(*self) {
                Some(f) => Result::<i32, OsError>::Ok(f),
                None => Result::<i32, OsError>::Err(OsError::InvalidInput),
            },
    {
        if !self.write && !self.append && (self.create || self.truncate || self.create_new) {
            return Err(OsError::InvalidInput);
        }
        if self.append && self.truncate && !self.create_new {
            return Err(OsError::InvalidInput);
        }
        if self.create_new {
            Ok(o_creat() | o_excl())
        } else if self.create && self.truncate {
            Ok(o_creat() | o_trunc())
        } else if self.create {
            Ok(o_creat())
        } else if self.truncate {
            Ok(o_trunc())
        } else {
            Ok(0)
        }
    }

    /// Resolves the whole option set into OS open flags.
    pub fn resolve_flags(&self) -> (r: Result<i32, OsError>)
        ensures
            r == match spec_flags(*self) {
                Some(f) => Result::<i32, OsError>::Ok(f),
                None => Result::<i32, OsError>::Err(OsError::InvalidInput),
            },
    {
        let access = match self.get_access_mode() {
            Ok(a) => a,
            Err(e) => {
                return Err(e);
            },
        };
        let creation = match self.get_creation_mode() {
            Ok(c) => c,
            Err(e) => {
                return Err(e);
            },
        };
        Ok(o_cloexec() | access | creation | (self.custom_flags & !o_accmode()))
    }
}

} // verus!
