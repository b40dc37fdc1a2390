//! The configuration of the file-transfer endpoint, and how a request URI is
//! mapped to a file under its directory without ever leaving it.

use vstd::prelude::*;
use crate::text::{chars_match_at, chars_of, joined, trim_trailing_slashes};

verus! {

/// The port the file-transfer endpoint listens on unless told otherwise.
pub const HTTP_FILE_TRANSFER_PORT: u16 = 80;

/// An IP address, by its octets or its sixteen-bit segments.
#[derive(Debug, Clone, Copy, PartialEq, Eq, Structural)]
pub enum IpAddress {
    V4(u8, u8, u8, u8),
    V6(u16, u16, u16, u16, u16, u16, u16, u16),
}

/// An IP address with a port.
#[derive(Debug, Clone, Copy, PartialEq, Eq, Structural)]
pub struct SocketAddress {
    pub ip: IpAddress,
    pub port: u16,
}

/// Why a request cannot be served.
#[derive(Debug, Clone, PartialEq, Eq)]
pub enum FileTransferError {
    /// The URI is not a file-transfer URI, or leads out of the directory.
    InvalidURI { value: String },
}

/// Where the file-transfer endpoint listens, under which URI, and which
/// directory it serves.
#[derive(Debug, Clone)]
pub struct HttpConfig {
    pub bind_address: SocketAddress,
    pub file_transfer_uri: String,
    pub file_transfer_dir: String,
}

/// The lexical normal form of a path: separators collapsed, `.` dropped and
/// each `..` resolved against the name before it.
pub uninterp spec fn cleaned(path: Seq<char>) -> Seq<char>;

/// Relies on `path_clean::clean`, whose result depends on the path alone.
#[verifier::external_body]
fn clean_path(path: &str) -> (r: String)
    ensures
        r@ == cleaned(path@),
{
    path_clean::clean(path)
}

/// `s` with the prefix `p` taken off, when it starts with it.
pub open spec fn without_prefix(s: Seq<char>, p: Seq<char>) -> Option<Seq<char>> {
    if p.len() <= s.len() && s.subrange(0, p.len() as int) == p {
        Some(s.subrange(p.len() as int, s.len() as int))
    } else {
        None
    }
}

/// The path `p` lies under the directory `dir`, comparing whole names: `p`
/// is the directory itself or goes on after a separator.
pub open spec fn lies_under(p: Seq<char>, dir: Seq<char>) -> bool {
    let d = trim_trailing_slashes(dir);
    if d.len() == 0 {
        dir.len() == 0 || (p.len() > 0 && p[0] == '/')
    } else {
        p == d || (p.len() > d.len() && p.subrange(0, d.len() as int) == d && p[d.len() as int]
            == '/')
    }
}

/// The position of the last `c` in `s`, if there is one.
pub open spec fn last_index_of(s: Seq<char>, c: char) -> Option<int>
    decreases s.len(),
{
    if s.len() == 0 {
        None
    } else if s.last() == c {
        Some(s.len() - 1)
    } else {
        last_index_of(s.drop_last(), c)
    }
}

/// Takes the prefix `p` off `s`.
fn strip_prefix(s: &str, p: &str) -> (r: Option<String>)
    ensures
        r is Some <==> without_prefix(s@, p@) is Some,
        r matches Some(rest) ==> rest@ == without_prefix(s@, p@).unwrap(),
{
    let sc = chars_of(s);
    let pc = chars_of(p);
    if pc.len() > sc.len() {
        return None;
    }
    if chars_match_at(&sc, &pc, 0) {
        Some(String::from_str(s.substring_char(pc.len(), sc.len())))
    } else {
        None
    }
}

/// Whether the path `p` lies under the directory `dir`.
pub fn path_lies_under(p: &str, dir: &str) -> (r: bool)
    ensures
        r == lies_under(p@, dir@),
{
    let pc = chars_of(p);
    let dc = chars_of(dir);
    let mut k: usize = dc.len();
    assert(dc@.subrange(0, k as int) =~= dc@);
    while k > 0 && dc[k - 1] == '/'
        invariant
            k <= dc@.len(),
            trim_trailing_slashes(dc@.subrange(0, k as int)) == trim_trailing_slashes(dc@),
        decreases k,
    {
        assert(dc@.subrange(0, k as int).drop_last() =~= dc@.subrange(0, k - 1));
        k = k - 1;
    }
    let ghost d = dc@.subrange(0, k as int);
    assert(trim_trailing_slashes(dir@) == d);
    if k == 0 {
        return dc.len() == 0 || (pc.len() > 0 && pc[0] == '/');
    }
    if pc.len() < k {
        assert(pc@ != d);
        return false;
    }
    let mut i: usize = 0;
    while i < k
        invariant
            pc@ == p@,
            dc@ == dir@,
            d == trim_trailing_slashes(dir@),
            k <= dc@.len(),
            k <= pc@.len(),
            d == dc@.subrange(0, k as int),
            i <= k,
            forall|j: int| 0 <= j < i ==> pc@[j] == dc@[j],
        decreases k - i,
    {
        if pc[i] != dc[i] {
            assert(pc@.subrange(0, k as int)[i as int] != d[i as int]);
            assert(pc@ != d) by {
                if pc@ == d {
                    assert(pc@[i as int] == d[i as int]);
                }
            }
            assert(pc@.subrange(0, d.len() as int) != d);

            return false;
        }
        i = i + 1;
    }
    assert(pc@.subrange(0, k as int) =~= d);
    if pc.len() == k {
        assert(pc@ =~= d);
        true
    } else {
        pc[k] == '/'
    }
}

impl HttpConfig {
    /// The same configuration listening on `ip`, on the same port.
    pub fn with_ip_address(self, ip: IpAddress) -> (r: HttpConfig)
        ensures
            r == (HttpConfig { bind_address: SocketAddress { ip, port: self.bind_address.port }, ..self }),
    {
        let port = self.bind_address.port;
        HttpConfig { bind_address: SocketAddress { ip, port }, ..self }
    }

    /// The same configuration serving the directory `file_transfer_dir`.
    pub fn with_file_transfer_dir(self, file_transfer_dir: String) -> (r: HttpConfig)
        ensures
            r == (HttpConfig { file_transfer_dir, ..self }),
    {
        HttpConfig { file_transfer_dir, ..self }
    }

    /// The same configuration listening on `port`.
    pub fn with_port(self, port: u16) -> (r: HttpConfig)
        ensures
            r == (HttpConfig { bind_address: SocketAddress { port, ..self.bind_address }, ..self }),
    {
        let mut bind_address = self.bind_address;
        bind_address.port = port;
        HttpConfig { bind_address, ..self }
    }

    /// The route of the file-transfer requests.
    pub fn file_transfer_end_point(&self) -> (r: String)
        ensures
            r@ == self.file_transfer_uri@ + "file-transfer/*"@,
    {
        self.file_transfer_uri.clone().concat("file-transfer/*")
    }

    /// The served directory.
    pub fn file_transfer_dir_as_string(&self) -> (r: String)
        ensures
            r@ == self.file_transfer_dir@,
    {
        self.file_transfer_dir.clone()
    }

    pub open spec fn spec_accept(self, clean_path: Seq<char>) -> Result<Seq<char>, Seq<char>> {
        if lies_under(clean_path, self.file_transfer_dir@) {
            Ok(clean_path)
        } else {
            Err(clean_path)
        }
    }

    /// Accepts a normalised path only when it lies under the served
    /// directory; otherwise the URI is invalid, and the error names the path.
    pub fn accept_clean_path(&self, clean_path: String) -> (r: Result<String, FileTransferError>)
        ensures
            r matches Ok(p) ==> self.spec_accept(clean_path@) == Ok::<Seq<char>, Seq<char>>(p@),
            r matches Err(FileTransferError::InvalidURI { value }) ==> self.spec_accept(clean_path@)
                == Err::<Seq<char>, Seq<char>>(value@),
    {
        if path_lies_under(clean_path.as_str(), self.file_transfer_dir.as_str()) {
            Ok(clean_path)
        } else {
            Err(FileTransferError::InvalidURI { value: clean_path })
        }
    }

    /// The file that `uri` designates: the URI must start with the
    /// file-transfer URI, and what follows, taken under the served directory
    /// and normalised, must still lie under it.
    pub fn local_path_for_uri(&self, uri: String) -> (r: Result<String, FileTransferError>)
        ensures
            without_prefix(uri@, self.file_transfer_uri@) is None ==> (r matches Err(
                FileTransferError::InvalidURI { value },
            ) && value@ == uri@),
            without_prefix(uri@, self.file_transfer_uri@) matches Some(rest) ==> {
                let expected = self.spec_accept(
                    cleaned(joined(self.file_transfer_dir@, rest)),
                );
                &&& r matches Ok(p) ==> expected == Ok::<Seq<char>, Seq<char>>(p@)
                &&& r matches Err(FileTransferError::InvalidURI { value }) ==> expected == Err::<
                    Seq<char>,
                    Seq<char>,
                >(value@)
            },
    {
        match strip_prefix(uri.as_str(), self.file_transfer_uri.as_str()) {
            None => Err(FileTransferError::InvalidURI { value: uri }),
            Some(rest) => {
                let full_path = crate::text::join_path(self.file_transfer_dir.as_str(), rest.as_str());
                let clean = clean_path(full_path.as_str());
                self.accept_clean_path(clean)
            },
        }
    }
}

impl Default for HttpConfig {
    /// Listens on 127.0.0.1, port 80, under `/tedge/`, serving `/var/tedge/`.
    fn default() -> (r: HttpConfig)
        ensures
            r.bind_address == (SocketAddress {
                ip: IpAddress::V4(127, 0, 0, 1),
                port: HTTP_FILE_TRANSFER_PORT,
            }),
            r.file_transfer_uri@ == "/tedge/"@,
            r.file_transfer_dir@ == "/var/tedge/"@,
    {
        HttpConfig {
            bind_address: SocketAddress {
                ip: IpAddress::V4(127, 0, 0, 1),
                port: HTTP_FILE_TRANSFER_PORT,
            },
            file_transfer_uri: String::from_str("/tedge/"),
            file_transfer_dir: String::from_str("/var/tedge/"),
        }
    }
}

/// Splits a path at its last separator into the directory part and the file
/// name; `None` when it has no separator.
pub fn separate_path_and_file_name(input: String) -> (r: Option<(String, String)>)
    ensures
        last_index_of(input@, '/') is None <==> r is None,
        r matches Some(p) ==> {
            let k = last_index_of(input@, '/').unwrap();
            &&& p.0@ == input@.subrange(0, k)
            &&& p.1@ == input@.subrange(k + 1, input@.len() as int)
        },
{
    let c = chars_of(input.as_str());
    let mut k: usize = c.len();
    assert(c@.subrange(0, k as int) =~= c@);
    while k > 0 && c[k - 1] != '/'
        invariant
            k <= c@.len(),
            last_index_of(c@.subrange(0, k as int), '/') == last_index_of(c@, '/'),
        decreases k,
    {
        assert(c@.subrange(0, k as int).drop_last() =~= c@.subrange(0, k - 1));
        k = k - 1;
    }
    if k == 0 {
        assert(c@.subrange(0, 0) =~= Seq::<char>::empty());
        return None;
    }
    let dir = String::from_str(input.as_str().substring_char(0, k - 1));
    let name = String::from_str(input.as_str().substring_char(k, c.len()));
    Some((dir, name))
}

/// The status of a `PUT`: created when the body was written to the file,
/// forbidden when the path has no file name or the write failed.
pub fn put_status(has_file_name: bool, written: bool) -> (r: u16)
    ensures
        r == (if has_file_name && written { 201u16 } else { 403u16 }),
{
    if has_file_name && written {
        201
    } else {
        403
    }
}

/// The status of a `GET`: not found for a missing file or a directory.
pub fn get_status(found: bool, is_dir: bool) -> (r: u16)
    ensures
        r == (if !found || is_dir { 404u16 } else { 200u16 }),
{
    if !found || is_dir {
        404
    } else {
        200
    }
}

/// The status of a `DELETE`: accepted when the file is gone afterwards,
/// forbidden when removing it failed.
pub fn delete_status(found: bool, removed: bool) -> (r: u16)
    ensures
        r == (if !found || removed { 202u16 } else { 403u16 }),
{
    if !found || removed {
        202
    } else {
        403
    }
}

} // verus!
