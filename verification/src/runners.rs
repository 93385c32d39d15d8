//! The runners that start node processes: their names and their settings. Starting the
//! processes is the driver's part.

use vstd::prelude::*;

verus! {

/// What `std::path::Path::join` gives for `base` and `part`, as text: `part` appended
/// to `base` as a further component (or `part` alone if it is absolute), with the
/// separators of the platform that the library is built for.
pub uninterp spec fn joined_path(base: Seq<char>, part: Seq<char>) -> Seq<char>;

/// Appends `part` to the path `base`.
///
/// Calls `std::path::Path::join` and converts the result with `to_string_lossy`, which
/// changes nothing in a path made of strings; its result is named [`joined_path`].
#[verifier::external_body]
fn join_path(base: &str, part: &str) -> (r: String)
    ensures
        r@ == joined_path(base@, part@),
{
    std::path::Path::new(base).join(part).to_string_lossy().into_owned()
}

/// `base` with each of `parts` appended in turn as a path component.
pub open spec fn join_all(base: Seq<char>, parts: Seq<Seq<char>>) -> Seq<char>
    decreases parts.len(),
{
    if parts.len() == 0 {
        base
    } else {
        joined_path(join_all(base, parts.drop_last()), parts.last())
    }
}

/// The Lua version number in a Lua `_VERSION` string such as `Lua 5.4`.
pub open spec fn lua_version_number(version: Seq<char>) -> Seq<char> {
    version.subrange(4, version.len() as int)
}

/// The module search path for a script in `source_dir`: `base`, then the script's own
/// directory (`?.lua` and `?/init.lua`), then the rocks installed beside the script under
/// `lua_modules/share/lua/<version>`, the entries separated by `;`.
pub open spec fn lua_module_path(base: Seq<char>, source_dir: Seq<char>, version: Seq<char>) -> Seq<char> {
    let local = join_all(source_dir, seq!["lua_modules"@, "share"@, "lua"@, lua_version_number(version)]);
    base + ";"@ + join_all(source_dir, seq!["?.lua"@]) + ";"@ + join_all(source_dir, seq!["?"@, "init.lua"@]) + ";"@
        + join_all(local, seq!["?.lua"@]) + ";"@ + join_all(local, seq!["?"@, "init.lua"@])
}

/// The C module search path for a script in `source_dir`: `base`, then the script's
/// own directory (`?.so`), then the rocks installed beside the script under
/// `lua_modules/lib64/lua/<version>`, the entries separated by `;`.
pub open spec fn lua_c_module_path(base: Seq<char>, source_dir: Seq<char>, version: Seq<char>) -> Seq<char> {
    base + ";"@ + join_all(source_dir, seq!["?.so"@]) + ";"@ + join_all(
        source_dir,
        seq!["lua_modules"@, "lib64"@, "lua"@, lua_version_number(version), "?.so"@],
    )
}

/// The path that `luarocks` reported, if any, and `default` otherwise.
pub open spec fn reported_or(reported: Option<String>, default: Seq<char>) -> Seq<char> {
    match reported {
        Some(p) => p@,
        None => default,
    }
}

/// `base` with `a`, then `b` appended as path components.
fn join2(base: &str, a: &str, b: &str) -> (r: String)
    ensures
        r@ == join_all(base@, seq![a@, b@]),
{
    let first = join_path(base, a);
    let r = join_path(first.as_str(), b);
    proof {
        reveal_with_fuel(join_all, 3);
        assert(seq![a@, b@].drop_last() =~= seq![a@]);
        assert(seq![a@].drop_last() =~= Seq::<Seq<char>>::empty());
    }
    r
}

/// `base` with `a`, `b`, `c` and `d` appended in turn as path components.
fn join4(base: &str, a: &str, b: &str, c: &str, d: &str) -> (r: String)
    ensures
        r@ == join_all(base@, seq![a@, b@, c@, d@]),
{
    let ab = join2(base, a, b);
    let abc = join_path(ab.as_str(), c);
    let r = join_path(abc.as_str(), d);
    proof {
        reveal_with_fuel(join_all, 3);
        assert(seq![a@, b@, c@, d@].drop_last() =~= seq![a@, b@, c@]);
        assert(seq![a@, b@, c@].drop_last() =~= seq![a@, b@]);
    }
    r
}

/// Runs native programs, with the commandline as the program and its arguments.
#[derive(Clone, Copy, Debug)]
pub struct NativeRunner;

/// Runs Lua scripts, with the module search paths that `luarocks` reported, if any.
pub struct LuaRunner {
    pub luarocks_path: Option<String>,
    pub luarocks_cpath: Option<String>,
    /// scripts may use the `os` and `io` libraries
    pub allow_os_libs: bool,
}

/// Launches Lua scripts, with the module search paths that `luarocks` reported, if any.
pub struct LuaLauncher {
    pub luarocks_path: Option<String>,
    pub luarocks_cpath: Option<String>,
}

/// A standard library of Lua.
#[derive(Clone, Copy, PartialEq, Eq, Structural, Debug)]
pub enum LuaLib {
    Table,
    String,
    Utf8,
    Coroutine,
    Math,
    Package,
    Os,
    Io,
}

/// The standard libraries a script gets: tables, strings, UTF-8, coroutines, maths and
/// packages, and the `os` and `io` libraries only when they are allowed.
pub open spec fn lua_libs_of(allow_os_libs: bool) -> Seq<LuaLib> {
    let base = seq![LuaLib::Table, LuaLib::String, LuaLib::Utf8, LuaLib::Coroutine, LuaLib::Math, LuaLib::Package];
    if allow_os_libs {
        base + seq![LuaLib::Os, LuaLib::Io]
    } else {
        base
    }
}

/// A script always gets the table, string, UTF-8, coroutine, maths and package
/// libraries; it gets the `os` and `io` libraries exactly when they are allowed; and no
/// library is given twice.
pub proof fn lemma_lua_libs(allow_os_libs: bool)
    ensures
        lua_libs_of(allow_os_libs).contains(LuaLib::Table),
        lua_libs_of(allow_os_libs).contains(LuaLib::String),
        lua_libs_of(allow_os_libs).contains(LuaLib::Utf8),
        lua_libs_of(allow_os_libs).contains(LuaLib::Coroutine),
        lua_libs_of(allow_os_libs).contains(LuaLib::Math),
        lua_libs_of(allow_os_libs).contains(LuaLib::Package),
        lua_libs_of(allow_os_libs).contains(LuaLib::Os) <==> allow_os_libs,
        lua_libs_of(allow_os_libs).contains(LuaLib::Io) <==> allow_os_libs,
        lua_libs_of(allow_os_libs).no_duplicates(),
{
    let v = lua_libs_of(allow_os_libs);
    assert(v[0] == LuaLib::Table);
    assert(v[1] == LuaLib::String);
    assert(v[2] == LuaLib::Utf8);
    assert(v[3] == LuaLib::Coroutine);
    assert(v[4] == LuaLib::Math);
    assert(v[5] == LuaLib::Package);
    if allow_os_libs {
        assert(v[6] == LuaLib::Os);
        assert(v[7] == LuaLib::Io);
        assert(v.len() == 8);
    } else {
        assert(v.len() == 6);
        assert(!v.contains(LuaLib::Os));
        assert(!v.contains(LuaLib::Io));
    }
}

impl LuaRunner {
    /// The standard libraries that a script run by this runner gets.
    pub fn libraries(&self) -> (v: Vec<LuaLib>)
        ensures
            v@ == lua_libs_of(self.allow_os_libs),
            v@.contains(LuaLib::Table) && v@.contains(LuaLib::String) && v@.contains(LuaLib::Utf8),
            v@.contains(LuaLib::Coroutine) && v@.contains(LuaLib::Math) && v@.contains(LuaLib::Package),
            v@.contains(LuaLib::Os) <==> self.allow_os_libs,
            v@.contains(LuaLib::Io) <==> self.allow_os_libs,
            v@.no_duplicates(),
    {
        proof {
            lemma_lua_libs(self.allow_os_libs);
        }
        let mut v: Vec<LuaLib> = Vec::new();
        v.push(LuaLib::Table);
        v.push(LuaLib::String);
        v.push(LuaLib::Utf8);
        v.push(LuaLib::Coroutine);
        v.push(LuaLib::Math);
        v.push(LuaLib::Package);
        if self.allow_os_libs {
            v.push(LuaLib::Os);
            v.push(LuaLib::Io);
        }
        proof {
            let base = seq![LuaLib::Table, LuaLib::String, LuaLib::Utf8, LuaLib::Coroutine, LuaLib::Math, LuaLib::Package];
            if self.allow_os_libs {
                assert(v@ =~= base + seq![LuaLib::Os, LuaLib::Io]);
            } else {
                assert(v@ =~= base);
            }
        }
        v
    }
}

impl LuaRunner {
    /// A Lua runner with the search paths `luarocks` reported (`None` if it could not be
    /// asked).
    pub fn new(luarocks: Option<(String, String)>, allow_os_libs: bool) -> (r: Self)
        ensures
            r.allow_os_libs == allow_os_libs,
            luarocks is None ==> r.luarocks_path is None && r.luarocks_cpath is None,
            luarocks matches Some((p, c)) ==> r.luarocks_path == Some(p) && r.luarocks_cpath == Some(c),
    {
        match luarocks {
            Some((path, cpath)) => Self { luarocks_path: Some(path), luarocks_cpath: Some(cpath), allow_os_libs },
            None => Self { luarocks_path: None, luarocks_cpath: None, allow_os_libs },
        }
    }
}

impl LuaRunner {
    /// The module search paths (Lua and C) for a script in `source_dir`, run by a Lua of
    /// the `_VERSION` string `version`: the paths `luarocks` reported, or else the
    /// interpreter's `default_path` and `default_cpath`, extended by the script's own
    /// directory and the rocks installed beside it.
    pub fn package_paths(&self, default_path: &str, default_cpath: &str, source_dir: &str, version: &str) -> (r: (String, String))
        requires
            version@.len() >= 4,
        ensures
            r.0@ == lua_module_path(reported_or(self.luarocks_path, default_path@), source_dir@, version@),
            r.1@ == lua_c_module_path(reported_or(self.luarocks_cpath, default_cpath@), source_dir@, version@),
    {
        proof {
            reveal_strlit(";");
            reveal_strlit("?.lua");
            reveal_strlit("?");
            reveal_strlit("init.lua");
            reveal_strlit("lua_modules");
            reveal_strlit("share");
            reveal_strlit("lua");
            reveal_strlit("lib64");
            reveal_strlit("?.so");
        }
        let ver = version.substring_char(4, version.unicode_len());
        let mut path = match &self.luarocks_path {
            Some(p) => p.clone(),
            None => String::from_str(default_path),
        };
        let local = join4(source_dir, "lua_modules", "share", "lua", ver);
        let own = join_path(source_dir, "?.lua");
        let own_init = join2(source_dir, "?", "init.lua");
        let rocks = join_path(local.as_str(), "?.lua");
        let rocks_init = join2(local.as_str(), "?", "init.lua");
        proof {
            reveal_with_fuel(join_all, 2);
            assert(seq!["?.lua"@].drop_last() =~= Seq::<Seq<char>>::empty());
            assert(own@ == join_all(source_dir@, seq!["?.lua"@]));
            assert(rocks@ == join_all(local@, seq!["?.lua"@]));
        }
        path.append(";");
        path.append(own.as_str());
        path.append(";");
        path.append(own_init.as_str());
        path.append(";");
        path.append(rocks.as_str());
        path.append(";");
        path.append(rocks_init.as_str());
        let mut cpath = match &self.luarocks_cpath {
            Some(p) => p.clone(),
            None => String::from_str(default_cpath),
        };
        let own_c = join_path(source_dir, "?.so");
        let rocks_lib = join4(source_dir, "lua_modules", "lib64", "lua", ver);
        let rocks_c = join_path(rocks_lib.as_str(), "?.so");
        proof {
            assert(seq!["?.so"@].drop_last() =~= Seq::<Seq<char>>::empty());
            reveal_with_fuel(join_all, 2);
            let five = seq!["lua_modules"@, "lib64"@, "lua"@, ver@, "?.so"@];
            assert(five.drop_last() =~= seq!["lua_modules"@, "lib64"@, "lua"@, ver@]);
            assert(own_c@ == join_all(source_dir@, seq!["?.so"@]));
            assert(rocks_c@ == join_all(source_dir@, five));
        }
        cpath.append(";");
        cpath.append(own_c.as_str());
        cpath.append(";");
        cpath.append(rocks_c.as_str());
        proof {
            assert(ver@ == lua_version_number(version@));
            assert(path@ =~= lua_module_path(reported_or(self.luarocks_path, default_path@), source_dir@, version@));
            assert(cpath@ =~= lua_c_module_path(reported_or(self.luarocks_cpath, default_cpath@), source_dir@, version@));
        }
        (path, cpath)
    }
}

impl LuaLauncher {
    /// A Lua launcher with the search paths `luarocks` reported (`None` if it could not
    /// be asked).
    pub fn new(luarocks: Option<(String, String)>) -> (r: Self)
        ensures
            luarocks is None ==> r.luarocks_path is None && r.luarocks_cpath is None,
            luarocks matches Some((p, c)) ==> r.luarocks_path == Some(p) && r.luarocks_cpath == Some(c),
    {
        match luarocks {
            Some((path, cpath)) => Self { luarocks_path: Some(path), luarocks_cpath: Some(cpath) },
            None => Self { luarocks_path: None, luarocks_cpath: None },
        }
    }
}

} // verus!
