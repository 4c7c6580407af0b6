//! The config assembler: turns the ordered directive sequence into a
//! plan of bulk-loader invocations, one per directive, in insertion
//! order.  Inline text is spooled to a uniquely named temporary file so
//! that the loader always receives a file argument; system schema names
//! resolve against the discovered schema directory.  The plan is fully
//! built — and any template resolved — before the daemon may be spawned,
//! so a partially assembled configuration is never visible to it.

use vstd::prelude::*;
use vstd::string::StringExecFns;

use crate::builder::LdapFile;
use crate::template::{spec_resolve, resolve, Substitutions};
use crate::text::{spec_dec, u64_dec_string};

verus! {

/// Join a directory path and a name with a single separator.
pub open spec fn spec_path_join(dir: Seq<char>, name: Seq<char>) -> Seq<char> {
    if dir.len() > 0 && dir.last() == '/' {
        dir + name
    } else {
        dir + "/"@ + name
    }
}

/// Join a directory path and a file name, avoiding a doubled separator.
pub fn path_join(dir: &str, name: &str) -> (r: String)
    ensures
        r@ == spec_path_join(dir@, name@),
{
    let dlen = dir.unicode_len();
    let mut out = String::from_str(dir);
    if dlen == 0 || dir.get_char(dlen - 1) != '/' {
        out.append("/");
        proof {
            reveal_strlit("/");
        }
    }
    out.append(name);
    out
}

/// The spool file name for the inline directive at position `idx`.
pub open spec fn spec_tmp_name(idx: int) -> Seq<char> {
    "tmp_"@ + spec_dec(idx) + ".ldif"@
}

/// Whether a directive is a template that still lives in a file, so its
/// contents are not yet available for resolution.
pub open spec fn is_template_file(d: LdapFile) -> bool {
    match d {
        LdapFile::File { template, .. } => template,
        _ => false,
    }
}

/// The path of the template file behind directive `i`, if that directive
/// is a file-based template whose contents must be read before
/// resolution.
pub fn template_file_path_at(directives: &Vec<(u8, LdapFile)>, i: usize) -> (r: Option<&String>)
    requires
        i < directives@.len(),
    ensures
        (r matches Some(p) ==> is_template_file(directives@[i as int].1)
            && p@ == directives@[i as int].1->File_file@),
        r is None ==> !is_template_file(directives@[i as int].1),
{
    match &directives[i].1 {
        LdapFile::File { template, file } => if *template {
            Some(file)
        } else {
            None
        },
        _ => None,
    }
}

/// Replace directive `i` with inline template text — the contents of the
/// file it named, as read by the driver.  Everything else is unchanged.
pub fn set_inline_text(directives: &mut Vec<(u8, LdapFile)>, i: usize, text: &str)
    requires
        i < old(directives)@.len(),
    ensures
        final(directives)@.len() == old(directives)@.len(),
        forall|j: int|
            0 <= j < old(directives)@.len() && j != i ==> final(directives)@[j] == old(
                directives,
            )@[j],
        final(directives)@[i as int].0 == old(directives)@[i as int].0,
        (final(directives)@[i as int].1 matches LdapFile::Text { template: t, content: c } && t
            == true && c@ == text@),
{
    let pair = directives.remove(i);
    directives.insert(i, (pair.0, LdapFile::Text { template: true, content: text.to_owned() }));
}

/// What resolution does to one directive: template text is resolved
/// against the table and loses its template flag; everything else passes
/// through unchanged.
pub open spec fn directive_resolved(pre: (u8, LdapFile), post: (u8, LdapFile), t: &Substitutions) -> bool {
    &&& post.0 == pre.0
    &&& match pre.1 {
        LdapFile::SystemSchema(f) => post.1 matches LdapFile::SystemSchema(g) && g@ == f@,
        LdapFile::File { template, file } => post.1 matches LdapFile::File {
            template: t2,
            file: g,
        } && t2 == template && g@ == file@,
        LdapFile::Text { template, content } => post.1 matches LdapFile::Text {
            template: t2,
            content: c,
        } && t2 == false && c@ == (if template {
            spec_resolve(content@, t)
        } else {
            content@
        }),
    }
}

/// Resolve every template directive against the substitution table.
/// File-based templates must already have been inlined; afterwards no
/// directive is a template any more.
pub fn resolve_directives(directives: &Vec<(u8, LdapFile)>, t: &Substitutions) -> (r: Vec<
    (u8, LdapFile),
>)
    requires
        forall|i: int|
            0 <= i < directives@.len() ==> !is_template_file(#[trigger] directives@[i].1),
    ensures
        r@.len() == directives@.len(),
        forall|i: int|
            0 <= i < r@.len() ==> directive_resolved(directives@[i], #[trigger] r@[i], t),
        forall|i: int| 0 <= i < r@.len() ==> !(#[trigger] r@[i].1).is_template(),
{
    let mut out: Vec<(u8, LdapFile)> = Vec::new();
    let mut i: usize = 0;
    while i < directives.len()
        invariant
            i <= directives@.len(),
            out@.len() == i,
            forall|i2: int|
                0 <= i2 < directives@.len() ==> !is_template_file(#[trigger] directives@[i2].1),
            forall|j: int|
                0 <= j < i ==> directive_resolved(directives@[j], #[trigger] out@[j], t),
            forall|j: int| 0 <= j < i ==> !(#[trigger] out@[j].1).is_template(),
        decreases directives@.len() - i,
    {
        let pair: &(u8, LdapFile) = &directives[i];
        let db: u8 = pair.0;
        let resolved: LdapFile = match &pair.1 {
            LdapFile::SystemSchema(f) => LdapFile::SystemSchema(f.clone()),
            LdapFile::File { template: _, file } => LdapFile::File {
                template: false,
                file: file.clone(),
            },
            LdapFile::Text { template, content } => if *template {
                LdapFile::Text { template: false, content: resolve(content.as_str(), t) }
            } else {
                LdapFile::Text { template: false, content: content.clone() }
            },
        };
        out.push((db, resolved));
        i = i + 1;
    }
    out
}

/// One planned bulk-loader invocation.
pub struct LoaderStep {
    /// For an inline directive: the spool file to write first, as a
    /// `(path, contents)` pair.  `None` when the source is already a
    /// file on disk.
    pub spool: Option<(String, String)>,
    /// The target configuration database number.
    pub db_number: u8,
    /// The file argument handed to the loader.
    pub source_path: String,
    /// The full loader argument list.
    pub argv: Vec<String>,
}

/// The file the loader receives for a directive: schema names resolve
/// against the schema directory, file paths pass through, and inline
/// text is spooled under a per-index name in the working directory.
pub open spec fn spec_source_path(
    d: LdapFile,
    idx: int,
    work_dir: Seq<char>,
    schema_dir: Seq<char>,
) -> Seq<char> {
    match d {
        LdapFile::SystemSchema(f) => spec_path_join(schema_dir, f@),
        LdapFile::File { file, .. } => file@,
        LdapFile::Text { .. } => spec_path_join(work_dir, spec_tmp_name(idx)),
    }
}

/// The loader's argument list for one step.
pub open spec fn spec_loader_argv(
    argv: Seq<String>,
    config_dir: Seq<char>,
    db: u8,
    source_path: Seq<char>,
) -> bool {
    &&& argv.len() == 6
    &&& argv[0]@ == "-F"@
    &&& argv[1]@ == config_dir
    &&& argv[2]@ == "-n"@
    &&& argv[3]@ == spec_dec(db as int)
    &&& argv[4]@ == "-l"@
    &&& argv[5]@ == source_path
}

/// The whole contract of one plan entry against the directive it came
/// from.
pub open spec fn step_matches(
    step: LoaderStep,
    d: (u8, LdapFile),
    idx: int,
    work_dir: Seq<char>,
    config_dir: Seq<char>,
    schema_dir: Seq<char>,
) -> bool {
    &&& step.db_number == d.0
    &&& step.source_path@ == spec_source_path(d.1, idx, work_dir, schema_dir)
    &&& (match d.1 {
        LdapFile::Text { content, .. } => step.spool matches Some(pc) && pc.0@ == spec_path_join(
            work_dir,
            spec_tmp_name(idx),
        ) && pc.1@ == content@,
        _ => step.spool is None,
    })
    &&& spec_loader_argv(step.argv@, config_dir, d.0, step.source_path@)
}

fn loader_argv(config_dir: &str, db: u8, source_path: &str) -> (r: Vec<String>)
    ensures
        spec_loader_argv(r@, config_dir@, db, source_path@),
{
    let mut v: Vec<String> = Vec::new();
    v.push(String::from_str("-F"));
    v.push(String::from_str(config_dir));
    v.push(String::from_str("-n"));
    v.push(u64_dec_string(db as u64));
    v.push(String::from_str("-l"));
    v.push(String::from_str(source_path));
    v
}

/// Build the loader plan: exactly one invocation per directive, in
/// insertion order, each against its directive's database number.
pub fn assembly_plan(
    resolved: &Vec<(u8, LdapFile)>,
    work_dir: &str,
    config_dir: &str,
    schema_dir: &str,
) -> (r: Vec<LoaderStep>)
    requires
        forall|i: int| 0 <= i < resolved@.len() ==> !(#[trigger] resolved@[i].1).is_template(),
    ensures
        r@.len() == resolved@.len(),
        forall|i: int|
            0 <= i < r@.len() ==> step_matches(
                #[trigger] r@[i],
                resolved@[i],
                i,
                work_dir@,
                config_dir@,
                schema_dir@,
            ),
{
    let mut out: Vec<LoaderStep> = Vec::new();
    let mut i: usize = 0;
    while i < resolved.len()
        invariant
            i <= resolved@.len(),
            out@.len() == i,
            forall|j: int|
                0 <= j < i ==> step_matches(
                    #[trigger] out@[j],
                    resolved@[j],
                    j,
                    work_dir@,
                    config_dir@,
                    schema_dir@,
                ),
        decreases resolved@.len() - i,
    {
        let pair: &(u8, LdapFile) = &resolved[i];
        let db: u8 = pair.0;
        let step: LoaderStep = match &pair.1 {
            LdapFile::SystemSchema(f) => {
                let source_path = path_join(schema_dir, f.as_str());
                let argv = loader_argv(config_dir, db, source_path.as_str());
                LoaderStep { spool: None, db_number: db, source_path, argv }
            },
            LdapFile::File { template: _, file } => {
                let source_path = String::from_str(file.as_str());
                let argv = loader_argv(config_dir, db, source_path.as_str());
                LoaderStep { spool: None, db_number: db, source_path, argv }
            },
            LdapFile::Text { template: _, content } => {
                let mut name = String::from_str("tmp_");
                name.append(u64_dec_string(i as u64).as_str());
                name.append(".ldif");
                proof {
                    reveal_strlit("tmp_");
                    reveal_strlit(".ldif");
                    assert(name@ =~= spec_tmp_name(i as int));
                }
                let source_path = path_join(work_dir, name.as_str());
                let argv = loader_argv(config_dir, db, source_path.as_str());
                LoaderStep {
                    spool: Some((String::from_str(source_path.as_str()), content.clone())),
                    db_number: db,
                    source_path,
                    argv,
                }
            },
        };
        out.push(step);
        i = i + 1;
    }
    out
}

/// The daemon's argument list: the assembled configuration directory,
/// the fixed debug level that routes diagnostics to standard error, and
/// the combined listen URLs.
pub fn daemon_argv(config_dir: &str, urls: &str) -> (r: Vec<String>)
    ensures
        r@.len() == 6,
        r@[0]@ == "-F"@,
        r@[1]@ == config_dir@,
        r@[2]@ == "-d"@,
        r@[3]@ == "2048"@,
        r@[4]@ == "-h"@,
        r@[5]@ == urls@,
{
    let mut v: Vec<String> = Vec::new();
    v.push(String::from_str("-F"));
    v.push(String::from_str(config_dir));
    v.push(String::from_str("-d"));
    v.push(String::from_str("2048"));
    v.push(String::from_str("-h"));
    v.push(String::from_str(urls));
    v
}

} // verus!
