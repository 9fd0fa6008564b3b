//! Where the SWUpdate sockets are.
//!
//! A path fixed when the program is built has precedence. Otherwise the socket
//! has its default name in the directory given by `$RUNTIME_DIRECTORY`, by
//! `$TMPDIR`, or in `/tmp`. Paths are byte strings, as the operating system has
//! them.

use vstd::prelude::*;
use vstd::string::StringSliceAdditionalSpecFns;

verus! {

/// Default file name of the control socket.
pub const SOCKET_CTRL_DEFAULT: &'static str = "sockinstctrl";

/// Default file name of the progress socket.
pub const SOCKET_PROGRESS_DEFAULT: &'static str = "swupdateprog";

/// The bytes of an optional path.
pub open spec fn path_bytes(path: Option<&[u8]>) -> Option<Seq<u8>> {
    match path {
        Some(p) => Some(p@),
        None => None,
    }
}

/// Whether a path is given and not empty.
pub open spec fn given(path: Option<Seq<u8>>) -> bool {
    path matches Some(p) && p.len() > 0
}

/// The directory of the sockets.
pub open spec fn socket_dir(
    runtime_directory: Option<Seq<u8>>,
    tmpdir: Option<Seq<u8>>,
) -> Seq<u8> {
    if given(runtime_directory) {
        runtime_directory->0
    } else if given(tmpdir) {
        tmpdir->0
    } else {
        "/tmp".spec_bytes()
    }
}

/// The file `name` in the directory `dir`: one slash stands between them.
pub open spec fn file_in(dir: Seq<u8>, name: Seq<u8>) -> Seq<u8> {
    if dir.len() > 0 && dir.last() == 47 {
        dir + name
    } else {
        dir + seq![47u8] + name
    }
}

/// The path of the socket with the given default name.
pub open spec fn socket_path(
    configured: Option<Seq<u8>>,
    runtime_directory: Option<Seq<u8>>,
    tmpdir: Option<Seq<u8>>,
    name: Seq<u8>,
) -> Seq<u8> {
    if given(configured) {
        configured->0
    } else {
        file_in(socket_dir(runtime_directory, tmpdir), name)
    }
}

fn bytes_if_given(path: Option<&[u8]>) -> (bytes: Option<Vec<u8>>)
    ensures
        bytes is Some <==> given(path_bytes(path)),
        bytes matches Some(b) ==> path_bytes(path) == Some(b@),
{
    match path {
        Some(p) => if p.len() > 0 {
            let mut bytes: Vec<u8> = Vec::new();
            bytes.extend_from_slice(p);
            assert(bytes@ =~= p@);
            Some(bytes)
        } else {
            None
        },
        None => None,
    }
}

fn resolve(
    configured: Option<&[u8]>,
    runtime_directory: Option<&[u8]>,
    tmpdir: Option<&[u8]>,
    name: &str,
) -> (path: Vec<u8>)
    ensures
        path@ == socket_path(
            path_bytes(configured),
            path_bytes(runtime_directory),
            path_bytes(tmpdir),
            name.spec_bytes(),
        ),
{
    if let Some(path) = bytes_if_given(configured) {
        return path;
    }
    let mut path = match bytes_if_given(runtime_directory) {
        Some(dir) => dir,
        None => match bytes_if_given(tmpdir) {
            Some(dir) => dir,
            None => {
                let mut dir: Vec<u8> = Vec::new();
                dir.extend_from_slice("/tmp".as_bytes());
                assert(dir@ =~= "/tmp".spec_bytes());
                dir
            },
        },
    };
    let ghost dir = path@;
    if !(path.len() > 0 && path[path.len() - 1] == 47) {
        path.push(47);
    }
    path.extend_from_slice(name.as_bytes());
    assert(path@ =~= file_in(dir, name.spec_bytes()));
    path
}

/// Resolves the control socket path.
pub fn ctrl_socket_path(
    configured: Option<&[u8]>,
    runtime_directory: Option<&[u8]>,
    tmpdir: Option<&[u8]>,
) -> (path: Vec<u8>)
    ensures
        path@ == socket_path(
            path_bytes(configured),
            path_bytes(runtime_directory),
            path_bytes(tmpdir),
            SOCKET_CTRL_DEFAULT.spec_bytes(),
        ),
{
    resolve(configured, runtime_directory, tmpdir, SOCKET_CTRL_DEFAULT)
}

/// Resolves the progress socket path.
pub fn progress_socket_path(
    configured: Option<&[u8]>,
    runtime_directory: Option<&[u8]>,
    tmpdir: Option<&[u8]>,
) -> (path: Vec<u8>)
    ensures
        path@ == socket_path(
            path_bytes(configured),
            path_bytes(runtime_directory),
            path_bytes(tmpdir),
            SOCKET_PROGRESS_DEFAULT.spec_bytes(),
        ),
{
    resolve(configured, runtime_directory, tmpdir, SOCKET_PROGRESS_DEFAULT)
}

/// A path that was fixed is taken as it is; otherwise the socket lies in the first
/// directory that is given and not empty, or in `/tmp`.
pub proof fn law_socket_paths(
    fixed: Option<&[u8]>,
    runtime_directory: Option<&[u8]>,
    tmpdir: Option<&[u8]>,
    dir: Seq<u8>,
    ctrl: Vec<u8>,
    progress: Vec<u8>,
)
    requires
        call_ensures(ctrl_socket_path, (fixed, runtime_directory, tmpdir), ctrl),
        call_ensures(progress_socket_path, (fixed, runtime_directory, tmpdir), progress),
        ({
            let first = runtime_directory is Some && runtime_directory->0@.len() > 0;
            let second = tmpdir is Some && tmpdir->0@.len() > 0;
            &&& first ==> dir == runtime_directory->0@
            &&& !first && second ==> dir == tmpdir->0@
            &&& !first && !second ==> dir == "/tmp".spec_bytes()
        }),
    ensures
        fixed is Some && fixed->0@.len() > 0 ==> ctrl@ == fixed->0@ && progress@ == fixed->0@,
        !(fixed is Some && fixed->0@.len() > 0) ==> {
            &&& dir.last() == 47 ==> ctrl@ == dir + "sockinstctrl".spec_bytes() && progress@ == dir
                + "swupdateprog".spec_bytes()
            &&& dir.last() != 47 ==> ctrl@ == dir + seq![47u8] + "sockinstctrl".spec_bytes()
                && progress@ == dir + seq![47u8] + "swupdateprog".spec_bytes()
        },
{
    reveal_strlit("/tmp");
    vstd::utf8::is_ascii_chars_encode_utf8("/tmp"@);
    assert("/tmp".spec_bytes().len() == 4);
}

} // verus!
