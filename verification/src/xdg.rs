//! Where the program keeps its files: the XDG configuration directory of
//! the `koushin` prefix, found by the `xdg` crate.
use crate::error::{from_io_result, from_xdg_result, KoushinError};
use std::path::PathBuf;
use vstd::prelude::*;
use vstd::string::StringSliceAdditionalSpecFns;

verus! {

#[verifier::external_type_specification]
#[verifier::external_body]
pub struct ExBaseDirectories(xdg::BaseDirectories);

#[verifier::external_type_specification]
#[verifier::external_body]
pub struct ExPathBuf(std::path::PathBuf);

/// The prefix of the program's directories.
pub const PKG_NAME: &'static str = "koushin";

/// The file that holds the client configuration.
pub const CONFIG_FILE: &'static str = "config.toml";

/// The file that holds the access and refresh tokens.
pub const AUTH_FILE: &'static str = "auth.toml";

/// The bytes of a path.
pub uninterp spec fn path_bytes(p: PathBuf) -> Seq<u8>;

/// The bytes of the user prefix that base directories add to each of their
/// homes.
pub uninterp spec fn dirs_user_prefix(d: xdg::BaseDirectories) -> Seq<u8>;

/// The bytes of the configuration home of base directories.
pub uninterp spec fn dirs_config_home(d: xdg::BaseDirectories) -> Seq<u8>;

/// The byte of the path separator, `/`.
pub open spec fn separator() -> u8 {
    47
}

/// `Path::join` on Unix, in bytes: a path that starts with `/` replaces the
/// base; otherwise it is appended, after a separator unless the base is
/// empty or already ends with one.
pub open spec fn path_join(base: Seq<u8>, rel: Seq<u8>) -> Seq<u8> {
    if rel.len() > 0 && rel[0] == separator() {
        rel
    } else if base.len() > 0 && base.last() != separator() {
        base + seq![separator()] + rel
    } else {
        base + rel
    }
}

/// `xdg::BaseDirectories::with_prefix`: reads the environment to find the
/// base directories. Whether it succeeds, and the configuration home it
/// finds, depend on the environment: only that the home is not empty is
/// stated. The user prefix is the prefix joined with an empty profile.
#[verifier::external_body]
fn base_directories_with_prefix(prefix: &str) -> (r: Result<
    xdg::BaseDirectories,
    xdg::BaseDirectoriesError,
>)
    ensures
        r matches Ok(d) ==> dirs_user_prefix(d) == path_join(prefix.spec_bytes(), seq![]),
        r matches Ok(d) ==> dirs_config_home(d).len() > 0,
{
    xdg::BaseDirectories::with_prefix(prefix)
}

/// `xdg::BaseDirectories::place_config_file`: creates the directories a
/// configuration file goes in and gives its path: the configuration home
/// joined with the user prefix joined with the name. Whether it succeeds
/// depends on the file system.
#[verifier::external_body]
fn place_config_file(dirs: &xdg::BaseDirectories, name: &str) -> (r: Result<
    PathBuf,
    std::io::Error,
>)
    ensures
        r matches Ok(p) ==> path_bytes(p) == path_join(
            dirs_config_home(*dirs),
            path_join(dirs_user_prefix(*dirs), name.spec_bytes()),
        ),
{
    dirs.place_config_file(name)
}

/// `xdg::BaseDirectories::get_config_home`: the configuration home joined
/// with the user prefix.
#[verifier::external_body]
fn get_config_home(dirs: &xdg::BaseDirectories) -> (r: PathBuf)
    ensures
        path_bytes(r) == path_join(dirs_config_home(*dirs), dirs_user_prefix(*dirs)),
{
    dirs.get_config_home()
}

/// The bytes of a name made of ASCII characters other than `/`: as many as
/// its characters, none of them the separator.
proof fn lemma_plain_name_bytes(s: &str)
    requires
        vstd::string::is_ascii(s),
        forall|i: int| 0 <= i < s@.len() ==> s@[i] != '/',
    ensures
        s.spec_bytes().len() == s@.len(),
        forall|i: int| 0 <= i < s@.len() ==> s.spec_bytes()[i] != separator(),
{
    broadcast use vstd::string::is_ascii_spec_bytes;

    assert forall|i: int| 0 <= i < s@.len() implies s.spec_bytes()[i] != separator() by {
        assert(s.spec_bytes()[i] == s@[i] as u8);
        assert((s@[i] as int) < 128);
    }
}

/// Where a file of the program lies: under some configuration home, in the
/// directory named by the prefix.
pub open spec fn program_file(home: Seq<u8>, name: Seq<u8>) -> Seq<u8> {
    path_join(home, PKG_NAME.spec_bytes() + seq![separator()] + name)
}

proof fn lemma_program_names()
    ensures
        PKG_NAME.spec_bytes().len() > 0,
        PKG_NAME.spec_bytes().last() != separator(),
        CONFIG_FILE.spec_bytes().len() > 0,
        CONFIG_FILE.spec_bytes()[0] != separator(),
        AUTH_FILE.spec_bytes().len() > 0,
        AUTH_FILE.spec_bytes()[0] != separator(),
{
    reveal_strlit("koushin");
    reveal_strlit("config.toml");
    reveal_strlit("auth.toml");
    lemma_plain_name_bytes(PKG_NAME);
    lemma_plain_name_bytes(CONFIG_FILE);
    lemma_plain_name_bytes(AUTH_FILE);
}

/// The base directories of the `koushin` prefix, whose user prefix is
/// `koushin/`; an error when the environment does not let them be found.
/// Whether they are found, and where the configuration home is, depend on
/// the environment (the home directory and the `XDG_*` variables).
pub fn xdg_dirs() -> (r: Result<xdg::BaseDirectories, KoushinError>)
    ensures
        r is Err ==> r matches Err(KoushinError::Xdg(_)),
        r matches Ok(d) ==> dirs_user_prefix(d) == PKG_NAME.spec_bytes() + seq![separator()],
        r matches Ok(d) ==> dirs_config_home(d).len() > 0,
{
    proof {
        lemma_program_names();
    }
    from_xdg_result(base_directories_with_prefix(PKG_NAME))
}

/// The path of a configuration file of the program, its directories made:
/// `<configuration home>/koushin/<name>`. Success, and the configuration
/// home, depend on the environment and on the file system.
fn config_file(name: &str) -> (r: Result<PathBuf, KoushinError>)
    requires
        name.spec_bytes().len() > 0,
        name.spec_bytes()[0] != separator(),
    ensures
        r is Err ==> (r matches Err(KoushinError::Xdg(_)) || r matches Err(KoushinError::Io(_))),
        r matches Ok(p) ==> exists|home: Seq<u8>|
            home.len() > 0 && path_bytes(p) == #[trigger] program_file(home, name.spec_bytes()),
{
    let dirs = match xdg_dirs() {
        Ok(d) => d,
        Err(e) => return Err(e),
    };
    let placed = place_config_file(&dirs, name);
    proof {
        let home = dirs_config_home(dirs);
        let prefixed = PKG_NAME.spec_bytes() + seq![separator()];
        assert(prefixed.last() == separator());
        assert(path_join(prefixed, name.spec_bytes()) =~= PKG_NAME.spec_bytes() + seq![separator()]
            + name.spec_bytes());
        if placed is Ok {
            assert(path_bytes(placed->Ok_0) == program_file(home, name.spec_bytes()));
        }
    }
    from_io_result(placed)
}

/// The path of the client configuration file, its directory made:
/// `<configuration home>/koushin/config.toml`. Success, and the
/// configuration home, depend on the environment and the file system.
pub fn config_path() -> (r: Result<PathBuf, KoushinError>)
    ensures
        r is Err ==> (r matches Err(KoushinError::Xdg(_)) || r matches Err(KoushinError::Io(_))),
        r matches Ok(p) ==> exists|home: Seq<u8>|
            home.len() > 0 && path_bytes(p) == #[trigger] program_file(home, CONFIG_FILE.spec_bytes()),
{
    proof {
        lemma_program_names();
    }
    config_file(CONFIG_FILE)
}

/// The path of the token file, its directory made:
/// `<configuration home>/koushin/auth.toml`. Success, and the configuration
/// home, depend on the environment and the file system.
pub fn auth_path() -> (r: Result<PathBuf, KoushinError>)
    ensures
        r is Err ==> (r matches Err(KoushinError::Xdg(_)) || r matches Err(KoushinError::Io(_))),
        r matches Ok(p) ==> exists|home: Seq<u8>|
            home.len() > 0 && path_bytes(p) == #[trigger] program_file(home, AUTH_FILE.spec_bytes()),
{
    proof {
        lemma_program_names();
    }
    config_file(AUTH_FILE)
}

/// The program's configuration directory, `<configuration home>/koushin/`.
/// Whether it is found, and the configuration home, depend on the
/// environment.
pub fn config_folder_path() -> (r: Result<PathBuf, KoushinError>)
    ensures
        r is Err ==> r matches Err(KoushinError::Xdg(_)),
        r matches Ok(p) ==> exists|home: Seq<u8>|
            home.len() > 0 && path_bytes(p) == #[trigger] path_join(
                home,
                PKG_NAME.spec_bytes() + seq![separator()],
            ),
{
    match xdg_dirs() {
        Ok(d) => {
            let p = get_config_home(&d);
            assert(path_bytes(p) == path_join(dirs_config_home(d), PKG_NAME.spec_bytes() + seq![separator()]));
            Ok(p)
        },
        Err(e) => Err(e),
    }
}

} // verus!
