//! What the command line hands the generator: the package's paths and the
//! parsed options.
use vstd::prelude::*;
use crate::module::CodegenOpts;

verus! {

/// The package being bound, as the build tool describes it.
#[derive(Clone, Debug)]
pub struct MetaData {
    pub pkg_name: String,
    pub lib_name: String,
    pub pkg_path: String,
    pub workspace_dir: String,
}

/// `path` relative to `dir`: the rest of `path` after `dir` and a path
/// separator; `None` when `dir` is not a leading run of whole components.
pub open spec fn stripped(path: Seq<char>, dir: Seq<char>) -> Option<Seq<char>> {
    if dir.len() <= path.len() && path.subrange(0, dir.len() as int) == dir {
        let rest = path.subrange(dir.len() as int, path.len() as int);
        if rest.len() == 0 {
            Some(rest)
        } else if rest[0] == '/' {
            Some(rest.drop_first())
        } else if dir.len() > 0 && dir.last() == '/' {
            Some(rest)
        } else {
            None
        }
    } else {
        None
    }
}

impl MetaData {
    /// The path of a build artifact relative to the workspace root.
    pub fn strip_workspace_path(&self, path: &str) -> (r: Option<String>)
        ensures
            r is None <==> stripped(path@, self.workspace_dir@) is None,
            r matches Some(s) ==> stripped(path@, self.workspace_dir@) == Some(s@),
    {
        let p = crate::lex::chars_of(path);
        let d = crate::lex::chars_of(self.workspace_dir.as_str());
        if d.len() > p.len() {
            return None;
        }
        let mut i: usize = 0;
        while i < d.len()
            invariant
                d.len() <= p.len(),
                p@ == path@,
                d@ == self.workspace_dir@,
                i <= d.len(),
                forall|j: int| 0 <= j < i ==> p@[j] == d@[j],
            decreases d.len() - i,
        {
            if p[i] != d[i] {
                assert(p@.subrange(0, d@.len() as int)[i as int] != d@[i as int]);
                assert(p@.subrange(0, d@.len() as int) != d@);
                assert(stripped(path@, self.workspace_dir@) is None);
                return None;
            }
            i = i + 1;
        }
        assert(p@.subrange(0, d@.len() as int) =~= d@);
        let n = d.len();
        if n == p.len() {
            assert(p@.subrange(n as int, p@.len() as int) =~= Seq::<char>::empty());
            return Some(String::new());
        }
        let start = if p[n] == '/' {
            n + 1
        } else if n > 0 && d[n - 1] == '/' {
            n
        } else {
            return None;
        };
        let mut r = String::new();
        let mut k = start;
        while k < p.len()
            invariant
                start <= k <= p.len(),
                r@ == p@.subrange(start as int, k as int),
            decreases p.len() - k,
        {
            crate::lex::push_char(&mut r, p[k]);
            assert(r@ =~= p@.subrange(start as int, k + 1));
            k = k + 1;
        }
        proof {
            let rest = p@.subrange(n as int, p@.len() as int);
            if p@[n as int] == '/' {
                assert(rest.drop_first() =~= p@.subrange(start as int, p@.len() as int));
            } else {
                assert(rest =~= p@.subrange(start as int, p@.len() as int));
            }
        }
        Some(r)
    }
}

/// The build tool collaborator; its commands run outside the library.
pub struct Cargo;

/// The parsed command line options.
#[derive(Clone, Debug)]
pub struct Cli {
    /// Path of the output file.
    pub output: Option<String>,
    /// Build for release.
    pub release: bool,
    /// Load the native library lazily.
    pub lazy: bool,
    /// Inline the helper type declarations in the module.
    pub inline: bool,
    /// Use the extended helper types.
    pub extended: bool,
    /// Library that the extended helper types load their symbols from.
    pub embedded: Option<String>,
    /// Skip source expansion and module scanning.
    pub no_expand: bool,
    /// Guided mode.
    pub interactive: bool,
    /// Skip the helper modules.
    pub no_modules: bool,
}

impl Cli {
    /// The code generation options for an output file name and the path
    /// of the native library.
    pub fn to_codegen_opts(&self, file_name: String, dylib_path: String) -> (r: CodegenOpts)
        ensures
            r.file_name == file_name,
            r.dylib_path == dylib_path,
            r.lazy == self.lazy,
            r.extended == self.extended,
            r.embedded == self.embedded,
    {
        let embedded = match &self.embedded {
            Some(e) => Some(e.clone()),
            None => None,
        };
        CodegenOpts { file_name, dylib_path, lazy: self.lazy, extended: self.extended, embedded }
    }
}

} // verus!
