//! Directory templates: the layout of directories and files that a new part directory is
//! given, and where templates and part directories are kept in a repository.

use vstd::prelude::*;
use crate::text::{owned, push_str};
use crate::paths::{join, join_path};
use super::{GitBackendConfig, GitBackendError, string_views};
use crate::text::chars_of;

verus! {

/// A directory template: the directories and files that a part directory is given.
#[derive(Debug, Clone)]
pub struct DirectoryTemplate {
    /// Template name.
    pub name: String,
    /// Template description.
    pub description: String,
    /// Template version.
    pub version: String,
    /// Directories to create.
    pub directories: Vec<DirectoryDefinition>,
    /// Files to create.
    pub files: Vec<FileDefinition>,
}

/// A directory of a template, with the directories inside it.
#[derive(Debug)]
pub struct DirectoryDefinition {
    /// Path relative to the directory that holds it.
    pub path: String,
    /// What the directory is for.
    pub description: String,
    /// Whether the directory is required.
    pub required: bool,
    /// Directories inside this one.
    pub subdirectories: Vec<DirectoryDefinition>,
}

/// Two directory definitions are alike: the same path, description and required flag, and
/// alike directories inside, in the same order.
pub open spec fn same_tree(a: DirectoryDefinition, b: DirectoryDefinition) -> bool
    decreases a, 1int,
{
    &&& a.path@ == b.path@
    &&& a.description@ == b.description@
    &&& a.required == b.required
    &&& same_trees(a.subdirectories@, b.subdirectories@)
}

/// Two lists of directory definitions are alike, one by one.
pub open spec fn same_trees(a: Seq<DirectoryDefinition>, b: Seq<DirectoryDefinition>) -> bool
    decreases a, 0int,
{
    if a.len() == 0 {
        b.len() == 0
    } else {
        proof {
            assert(decreases_to!(a => a[a.len() - 1]));
            assert(decreases_to!(a => a.subrange(0, a.len() - 1)));
        }
        &&& b.len() == a.len()
        &&& same_trees(a.subrange(0, a.len() - 1), b.subrange(0, b.len() - 1))
        &&& same_tree(a[a.len() - 1], b[b.len() - 1])
    }
}

impl Clone for DirectoryDefinition {
    /// A copy of the definition and of every directory inside it.
    fn clone(&self) -> (r: DirectoryDefinition)
        ensures
            same_tree(r, *self),
        decreases self,
    {
        let mut subdirectories: Vec<DirectoryDefinition> = Vec::new();
        let n = self.subdirectories.len();
        for i in 0..n
            invariant
                n == self.subdirectories.len(),
                subdirectories.len() == i,
                same_trees(subdirectories@, self.subdirectories@.subrange(0, i as int)),
        {
            proof {
                assert(decreases_to!(self => self.subdirectories));
                assert(decreases_to!(self.subdirectories => self.subdirectories@));
                assert(decreases_to!(self.subdirectories@ => self.subdirectories@[i as int]));
            }
            let c = self.subdirectories[i].clone();
            let ghost before = subdirectories@;
            subdirectories.push(c);
            proof {
                let done = self.subdirectories@.subrange(0, i + 1);
                assert(subdirectories@.subrange(0, i as int) =~= before);
                assert(done.subrange(0, i as int) =~= self.subdirectories@.subrange(0, i as int));
                assert(same_tree(subdirectories@[i as int], done[i as int]));
            }
        }
        assert(self.subdirectories@.subrange(0, n as int) =~= self.subdirectories@);
        let r = DirectoryDefinition {
            path: self.path.clone(),
            description: self.description.clone(),
            required: self.required,
            subdirectories,
        };
        r
    }
}

/// A file of a template.
#[derive(Debug, Clone)]
pub struct FileDefinition {
    /// Path relative to the part directory.
    pub path: String,
    /// What the file is for.
    pub description: String,
    /// Whether the file is required.
    pub required: bool,
    /// Path, relative to the repository, of a file whose contents the new file starts with.
    pub template: Option<String>,
}

/// Which template to use.
#[derive(Debug, Clone, PartialEq, Eq)]
pub enum TemplateType {
    /// Only the essential directories.
    Minimal,
    /// The commonly used directories (the default).
    Standard,
    /// All directories.
    Extended,
    /// A template of the user's, by name.
    Custom(String),
}

/// The name of a template type.
pub open spec fn template_type_text(t: TemplateType) -> Seq<char> {
    match t {
        TemplateType::Minimal => "minimal"@,
        TemplateType::Standard => "standard"@,
        TemplateType::Extended => "extended"@,
        TemplateType::Custom(name) => "custom/"@ + name@,
    }
}

impl TemplateType {
    /// The name of this template type: `minimal`, `standard`, `extended` or `custom/<name>`.
    pub fn to_string(&self) -> (r: String)
        ensures
            r@ == template_type_text(*self),
    {
        match self {
            TemplateType::Minimal => owned("minimal"),
            TemplateType::Standard => owned("standard"),
            TemplateType::Extended => owned("extended"),
            TemplateType::Custom(name) => {
                let mut r = owned("custom/");
                push_str(&mut r, name.as_str());
                r
            },
        }
    }
}

/// Places templates and part directories within a repository.
pub struct DirectoryTemplateManager<'a> {
    /// The Git backend configuration.
    config: &'a GitBackendConfig,
    /// Path of the repository.
    repo_path: String,
}

/// The directory of a repository that holds its templates.
pub open spec fn template_dir_path(repo: Seq<char>) -> Seq<char> {
    join_path(join_path(repo, "config"@), "directory-templates"@)
}

/// The file that holds a template of a repository.
pub open spec fn template_file_spec(repo: Seq<char>, t: TemplateType) -> Seq<char> {
    match t {
        TemplateType::Minimal => join_path(template_dir_path(repo), "minimal.json"@),
        TemplateType::Standard => join_path(template_dir_path(repo), "standard.json"@),
        TemplateType::Extended => join_path(template_dir_path(repo), "extended.json"@),
        TemplateType::Custom(name) => join_path(
            join_path(template_dir_path(repo), "custom"@),
            name@ + ".json"@,
        ),
    }
}

/// The directory of a part: `parts/<category>-<subcategory>-<part number>` in the repository.
pub open spec fn part_dir_spec(repo: Seq<char>, part_number: Seq<char>, category: Seq<char>, subcategory: Seq<char>) -> Seq<char> {
    join_path(join_path(repo, "parts"@), category + "-"@ + subcategory + "-"@ + part_number)
}

impl<'a> DirectoryTemplateManager<'a> {
    /// A manager for the repository at `repo_path`.
    pub fn new(repo_path: &str, config: &'a GitBackendConfig) -> (r: DirectoryTemplateManager<'a>)
        ensures
            r.repo_path() == repo_path@,
            r.config() == config,
    {
        DirectoryTemplateManager { config, repo_path: owned(repo_path) }
    }

    /// The path of the repository.
    pub closed spec fn repo_path(&self) -> Seq<char> {
        self.repo_path@
    }

    /// The configuration the manager was made with.
    pub closed spec fn config(&self) -> &'a GitBackendConfig {
        self.config
    }

    /// The directory that holds the templates: `config/directory-templates`.
    pub fn template_dir(&self) -> (r: String)
        ensures
            r@ == template_dir_path(self.repo_path()),
    {
        let c = join(self.repo_path.as_str(), "config");
        join(c.as_str(), "directory-templates")
    }

    /// The file that holds a template.
    pub fn template_file_path(&self, template_type: &TemplateType) -> (r: String)
        ensures
            r@ == template_file_spec(self.repo_path(), *template_type),
    {
        let dir = self.template_dir();
        match template_type {
            TemplateType::Minimal => join(dir.as_str(), "minimal.json"),
            TemplateType::Standard => join(dir.as_str(), "standard.json"),
            TemplateType::Extended => join(dir.as_str(), "extended.json"),
            TemplateType::Custom(name) => {
                let custom = join(dir.as_str(), "custom");
                let mut file = owned(name.as_str());
                push_str(&mut file, ".json");
                join(custom.as_str(), file.as_str())
            },
        }
    }

    /// The directory that holds the custom templates.
    pub fn custom_template_dir(&self) -> (r: String)
        ensures
            r@ == join_path(template_dir_path(self.repo_path()), "custom"@),
    {
        let dir = self.template_dir();
        join(dir.as_str(), "custom")
    }

    /// The directory of a part.
    pub fn part_directory(&self, part_number: &str, category: &str, subcategory: &str) -> (r: String)
        ensures
            r@ == part_dir_spec(self.repo_path(), part_number@, category@, subcategory@),
    {
        let parts = join(self.repo_path.as_str(), "parts");
        let mut name = owned(category);
        push_str(&mut name, "-");
        push_str(&mut name, subcategory);
        push_str(&mut name, "-");
        push_str(&mut name, part_number);
        join(parts.as_str(), name.as_str())
    }

    /// Whether `category` is a valid category code: two or three ASCII upper-case letters.
    pub fn is_valid_category(&self, category: &str) -> (r: bool)
        ensures
            r == crate::database::category::is_upper_code(category@, 2, 3),
    {
        crate::database::category::is_upper_code_of(category, 2, 3)
    }

    /// Whether `subcategory` is a valid subcategory code: two to four ASCII upper-case letters.
    pub fn is_valid_subcategory(&self, subcategory: &str) -> (r: bool)
        ensures
            r == crate::database::category::is_upper_code(subcategory@, 2, 4),
    {
        crate::database::category::is_upper_code_of(subcategory, 2, 4)
    }
}

/// The directories that `d` stands for when it is laid out in `base`, in the order they are
/// created: the directory itself, then, in order, those of each directory inside it.
pub open spec fn dir_paths(base: Seq<char>, d: DirectoryDefinition) -> Seq<Seq<char>>
    decreases d, 1int,
{
    let here = join_path(base, d.path@);
    proof {
        assert(decreases_to!(d => d.subdirectories));
        assert(decreases_to!(d.subdirectories => d.subdirectories@));
    }
    seq![here] + dirs_paths(here, d.subdirectories@)
}

/// The directories that each of `ds` stands for when laid out in `base`, one after another.
pub open spec fn dirs_paths(base: Seq<char>, ds: Seq<DirectoryDefinition>) -> Seq<Seq<char>>
    decreases ds, 0int,
{
    if ds.len() == 0 {
        Seq::empty()
    } else {
        proof {
            assert(decreases_to!(ds => ds[ds.len() - 1]));
            assert(decreases_to!(ds => ds.subrange(0, ds.len() - 1)));
        }
        dirs_paths(base, ds.subrange(0, ds.len() - 1)) + dir_paths(base, ds[ds.len() - 1])
    }
}

/// Appends to `out` the directories that `d` stands for when laid out in `base`.
fn collect_dir_paths(base: &str, d: &DirectoryDefinition, out: &mut Vec<String>)
    ensures
        string_views(final(out)@) == string_views(old(out)@) + dir_paths(base@, *d),
    decreases d,
{
    let here = join(base, d.path.as_str());
    let ghost start = string_views(out@);
    out.push(owned(here.as_str()));
    assert(string_views(out@) =~= start + seq![here@]);
    let n = d.subdirectories.len();
    for i in 0..n
        invariant
            n == d.subdirectories.len(),
            string_views(out@) == start + seq![here@] + dirs_paths(here@, d.subdirectories@.subrange(0, i as int)),
    {
        proof {
            assert(decreases_to!(*d => d.subdirectories));
            assert(decreases_to!(d.subdirectories => d.subdirectories@));
            assert(decreases_to!(d.subdirectories@ => d.subdirectories@[i as int]));
        }
        let ghost before = string_views(out@);
        collect_dir_paths(here.as_str(), &d.subdirectories[i], out);
        proof {
            let sub = d.subdirectories@.subrange(0, i + 1);
            assert(sub.subrange(0, sub.len() - 1) =~= d.subdirectories@.subrange(0, i as int));
            assert(sub[sub.len() - 1] == d.subdirectories@[i as int]);
        }
    }
    assert(d.subdirectories@.subrange(0, n as int) =~= d.subdirectories@);
}

/// The directories to create, in order, to lay out a template's directories in the part
/// directory `part_dir`.
pub fn template_directories(part_dir: &str, template: &DirectoryTemplate) -> (r: Vec<String>)
    ensures
        string_views(r@) == dirs_paths(part_dir@, template.directories@),
{
    let mut out: Vec<String> = Vec::new();
    assert(string_views(out@) =~= Seq::empty());
    let n = template.directories.len();
    for i in 0..n
        invariant
            n == template.directories.len(),
            string_views(out@) == dirs_paths(part_dir@, template.directories@.subrange(0, i as int)),
    {
        collect_dir_paths(part_dir, &template.directories[i], &mut out);
        proof {
            let sub = template.directories@.subrange(0, i + 1);
            assert(sub.subrange(0, sub.len() - 1) =~= template.directories@.subrange(0, i as int));
            assert(sub[sub.len() - 1] == template.directories@[i as int]);
        }
    }
    assert(template.directories@.subrange(0, n as int) =~= template.directories@);
    out
}

/// `d` has this path, description and required flag, and this many directories inside it.
pub open spec fn is_dir(d: DirectoryDefinition, path: Seq<char>, description: Seq<char>, required: bool, inside: nat) -> bool {
    &&& d.path@ == path
    &&& d.description@ == description
    &&& d.required == required
    &&& d.subdirectories.len() == inside
}

/// `f` has this path, description and required flag, and starts from this template file.
pub open spec fn is_file(f: FileDefinition, path: Seq<char>, description: Seq<char>, required: bool, template: Seq<char>) -> bool {
    &&& f.path@ == path
    &&& f.description@ == description
    &&& f.required == required
    &&& f.template matches Some(t) && t@ == template
}

/// The files of a built-in template of the given kind: a README and a metadata database,
/// each started from the kind's own template file.
pub open spec fn template_files(files: Seq<FileDefinition>, kind: Seq<char>) -> bool {
    &&& files.len() == 2
    &&& is_file(files[0], "README.md"@, "Human-readable part description"@, true, "templates/readme/"@ + kind + ".md"@)
    &&& is_file(files[1], "metadata.db"@, "SQLite database with part metadata"@, true, "templates/database/"@ + kind + ".db"@)
}

/// The minimal template, as `create_minimal_template` builds it.
pub open spec fn is_minimal_template(t: DirectoryTemplate) -> bool {
    &&& t.name@ == "Minimal Template"@
    &&& t.description@ == "Minimal directory structure for parts with only essential directories"@
    &&& t.version@ == "1.0.0"@
    &&& t.directories.len() == 1
    &&& is_dir(t.directories@[0], "design"@, "Design files"@, true, 0)
    &&& template_files(t.files@, "minimal"@)
}

/// The standard template, as `create_standard_template` builds it.
pub open spec fn is_standard_template(t: DirectoryTemplate) -> bool {
    &&& t.name@ == "Standard Template"@
    &&& t.description@ == "Standard directory structure for parts with commonly used directories"@
    &&& t.version@ == "1.0.0"@
    &&& t.directories.len() == 3
    &&& is_dir(t.directories@[0], "design"@, "Design files"@, true, 2)
    &&& is_dir(t.directories@[0].subdirectories@[0], "models"@, "3D models"@, false, 0)
    &&& is_dir(t.directories@[0].subdirectories@[1], "schematics"@, "Schematics and diagrams"@, false, 0)
    &&& is_dir(t.directories@[1], "manufacturing"@, "Manufacturing output files"@, true, 2)
    &&& is_dir(t.directories@[1].subdirectories@[0], "bom"@, "Bill of Materials"@, true, 0)
    &&& is_dir(t.directories@[1].subdirectories@[1], "assembly"@, "Assembly instructions"@, false, 0)
    &&& is_dir(t.directories@[2], "documentation"@, "Documentation files"@, true, 2)
    &&& is_dir(t.directories@[2].subdirectories@[0], "datasheets"@, "Component datasheets"@, false, 0)
    &&& is_dir(t.directories@[2].subdirectories@[1], "specifications"@, "Specifications"@, true, 0)
    &&& template_files(t.files@, "standard"@)
}

/// The extended template, as `create_extended_template` builds it.
pub open spec fn is_extended_template(t: DirectoryTemplate) -> bool {
    &&& t.name@ == "Extended Template"@
    &&& t.description@ == "Extended directory structure for parts with all possible directories"@
    &&& t.version@ == "1.0.0"@
    &&& t.directories.len() == 4
    &&& is_dir(t.directories@[0], "design"@, "Design files"@, true, 3)
    &&& is_dir(t.directories@[0].subdirectories@[0], "models"@, "3D models"@, true, 2)
    &&& is_dir(t.directories@[0].subdirectories@[0].subdirectories@[0], "step"@, "STEP format models"@, false, 0)
    &&& is_dir(t.directories@[0].subdirectories@[0].subdirectories@[1], "stl"@, "STL format models"@, false, 0)
    &&& is_dir(t.directories@[0].subdirectories@[1], "schematics"@, "Schematics and diagrams"@, true, 2)
    &&& is_dir(t.directories@[0].subdirectories@[1].subdirectories@[0], "pdf"@, "PDF exports"@, false, 0)
    &&& is_dir(t.directories@[0].subdirectories@[1].subdirectories@[1], "svg"@, "SVG exports"@, false, 0)
    &&& is_dir(t.directories@[0].subdirectories@[2], "source"@, "Source files for design"@, true, 2)
    &&& is_dir(t.directories@[0].subdirectories@[2].subdirectories@[0], "kicad"@, "KiCad project files"@, false, 0)
    &&& is_dir(t.directories@[0].subdirectories@[2].subdirectories@[1], "freecad"@, "FreeCAD project files"@, false, 0)
    &&& is_dir(t.directories@[1], "manufacturing"@, "Manufacturing output files"@, true, 4)
    &&& is_dir(t.directories@[1].subdirectories@[0], "gerbers"@, "Gerber files for PCBs"@, false, 0)
    &&& is_dir(t.directories@[1].subdirectories@[1], "bom"@, "Bill of Materials"@, true, 0)
    &&& is_dir(t.directories@[1].subdirectories@[2], "assembly"@, "Assembly instructions"@, true, 1)
    &&& is_dir(t.directories@[1].subdirectories@[2].subdirectories@[0], "images"@, "Images for assembly instructions"@, false, 0)
    &&& is_dir(t.directories@[1].subdirectories@[3], "drawings"@, "Technical drawings"@, true, 2)
    &&& is_dir(t.directories@[1].subdirectories@[3].subdirectories@[0], "pdf"@, "PDF format drawings"@, false, 0)
    &&& is_dir(t.directories@[1].subdirectories@[3].subdirectories@[1], "dxf"@, "DXF format drawings"@, false, 0)
    &&& is_dir(t.directories@[2], "documentation"@, "Documentation files"@, true, 3)
    &&& is_dir(t.directories@[2].subdirectories@[0], "datasheets"@, "Component datasheets"@, true, 0)
    &&& is_dir(t.directories@[2].subdirectories@[1], "specifications"@, "Specifications"@, true, 3)
    &&& is_dir(t.directories@[2].subdirectories@[1].subdirectories@[0], "electrical"@, "Electrical specifications"@, false, 0)
    &&& is_dir(t.directories@[2].subdirectories@[1].subdirectories@[1], "mechanical"@, "Mechanical specifications"@, false, 0)
    &&& is_dir(t.directories@[2].subdirectories@[1].subdirectories@[2], "environmental"@, "Environmental specifications"@, false, 0)
    &&& is_dir(t.directories@[2].subdirectories@[2], "user-guides"@, "User guides"@, true, 3)
    &&& is_dir(t.directories@[2].subdirectories@[2].subdirectories@[0], "installation"@, "Installation guides"@, false, 0)
    &&& is_dir(t.directories@[2].subdirectories@[2].subdirectories@[1], "operation"@, "Operation guides"@, false, 0)
    &&& is_dir(t.directories@[2].subdirectories@[2].subdirectories@[2], "maintenance"@, "Maintenance guides"@, false, 0)
    &&& is_dir(t.directories@[3], "tests"@, "Test files and results"@, true, 3)
    &&& is_dir(t.directories@[3].subdirectories@[0], "test-plans"@, "Test plans"@, true, 3)
    &&& is_dir(t.directories@[3].subdirectories@[0].subdirectories@[0], "functional"@, "Functional test plans"@, false, 0)
    &&& is_dir(t.directories@[3].subdirectories@[0].subdirectories@[1], "performance"@, "Performance test plans"@, false, 0)
    &&& is_dir(t.directories@[3].subdirectories@[0].subdirectories@[2], "compliance"@, "Compliance test plans"@, false, 0)
    &&& is_dir(t.directories@[3].subdirectories@[1], "test-results"@, "Test results"@, true, 3)
    &&& is_dir(t.directories@[3].subdirectories@[1].subdirectories@[0], "functional"@, "Functional test results"@, false, 0)
    &&& is_dir(t.directories@[3].subdirectories@[1].subdirectories@[1], "performance"@, "Performance test results"@, false, 0)
    &&& is_dir(t.directories@[3].subdirectories@[1].subdirectories@[2], "compliance"@, "Compliance test results"@, false, 0)
    &&& is_dir(t.directories@[3].subdirectories@[2], "test-fixtures"@, "Test fixtures"@, true, 2)
    &&& is_dir(t.directories@[3].subdirectories@[2].subdirectories@[0], "hardware"@, "Hardware test fixtures"@, false, 0)
    &&& is_dir(t.directories@[3].subdirectories@[2].subdirectories@[1], "software"@, "Software test fixtures"@, false, 0)
    &&& template_files(t.files@, "extended"@)
}

/// A path laid out from a list of directories is laid out from the directory of the list
/// that holds it, and each of them adds its own paths.
proof fn lemma_dirs_member(base: Seq<char>, ds: Seq<DirectoryDefinition>, k: int, p: Seq<char>)
    requires
        0 <= k < ds.len(),
        dir_paths(base, ds[k]).contains(p),
    ensures
        dirs_paths(base, ds).contains(p),
    decreases ds.len(),
{
    let front = ds.subrange(0, ds.len() - 1);
    let a = dirs_paths(base, front);
    let b = dir_paths(base, ds[ds.len() - 1]);
    assert(dirs_paths(base, ds) == a + b);
    if k == ds.len() - 1 {
        let i = choose|i: int| 0 <= i < b.len() && b[i] == p;
        assert((a + b)[a.len() + i] == p);
    } else {
        assert(front[k] == ds[k]);
        lemma_dirs_member(base, front, k, p);
        let i = choose|i: int| 0 <= i < a.len() && a[i] == p;
        assert((a + b)[i] == p);
    }
}

/// The directory of a list whose paths hold a path laid out from the list.
proof fn lemma_dirs_locate(base: Seq<char>, ds: Seq<DirectoryDefinition>, p: Seq<char>) -> (k: int)
    requires
        dirs_paths(base, ds).contains(p),
    ensures
        0 <= k < ds.len(),
        dir_paths(base, ds[k]).contains(p),
    decreases ds.len(),
{
    if ds.len() == 0 {
        assert(false);
        0
    } else {
        let front = ds.subrange(0, ds.len() - 1);
        let a = dirs_paths(base, front);
        let b = dir_paths(base, ds[ds.len() - 1]);
        assert(dirs_paths(base, ds) == a + b);
        let i = choose|i: int| 0 <= i < (a + b).len() && (a + b)[i] == p;
        if i < a.len() {
            assert(a[i] == p);
            let k = lemma_dirs_locate(base, front, p);
            assert(front[k] == ds[k]);
            k
        } else {
            assert(b[i - a.len()] == p);
            ds.len() - 1
        }
    }
}

/// A directory's own path is among those it lays out, and so are those of the directories
/// inside it.
proof fn lemma_dir_child(base: Seq<char>, d: DirectoryDefinition, j: int, p: Seq<char>)
    requires
        0 <= j < d.subdirectories@.len(),
        dir_paths(join_path(base, d.path@), d.subdirectories@[j]).contains(p),
    ensures
        dir_paths(base, d).contains(p),
{
    let here = join_path(base, d.path@);
    lemma_dirs_member(here, d.subdirectories@, j, p);
    let rest = dirs_paths(here, d.subdirectories@);
    let i = choose|i: int| 0 <= i < rest.len() && rest[i] == p;
    assert((seq![here] + rest)[i + 1] == p);
}

/// Where a path laid out from a directory comes from: the directory itself (`-1`), or the
/// directory inside it at the index given.
proof fn lemma_dir_locate(base: Seq<char>, d: DirectoryDefinition, p: Seq<char>) -> (j: int)
    requires
        dir_paths(base, d).contains(p),
    ensures
        j == -1 ==> p == join_path(base, d.path@),
        j != -1 ==> 0 <= j < d.subdirectories@.len()
            && dir_paths(join_path(base, d.path@), d.subdirectories@[j]).contains(p),
{
    let here = join_path(base, d.path@);
    let rest = dirs_paths(here, d.subdirectories@);
    let i = choose|i: int| 0 <= i < (seq![here] + rest).len() && (seq![here] + rest)[i] == p;
    if i == 0 {
        -1
    } else {
        assert(rest[i - 1] == p);
        lemma_dirs_locate(here, d.subdirectories@, p)
    }
}

/// A directory with nothing inside lays out its own path only.
proof fn lemma_leaf(base: Seq<char>, d: DirectoryDefinition)
    requires
        d.subdirectories@.len() == 0,
    ensures
        dir_paths(base, d) == seq![join_path(base, d.path@)],
{
    assert(dirs_paths(join_path(base, d.path@), d.subdirectories@) =~= Seq::<Seq<char>>::empty());
    assert(seq![join_path(base, d.path@)] + Seq::<Seq<char>>::empty() =~= seq![join_path(base, d.path@)]);
}

/// The path of a directory of the list, or of a directory inside one, is laid out from the
/// list.
proof fn lemma_path_at(base: Seq<char>, ds: Seq<DirectoryDefinition>, k: int, j: int, p: Seq<char>)
    requires
        0 <= k < ds.len(),
        j == -1 ==> p == join_path(base, ds[k].path@),
        j != -1 ==> 0 <= j < ds[k].subdirectories@.len()
            && p == join_path(join_path(base, ds[k].path@), ds[k].subdirectories@[j].path@),
    ensures
        dirs_paths(base, ds).contains(p),
{
    let d = ds[k];
    let here = join_path(base, d.path@);
    if j == -1 {
        assert((seq![here] + dirs_paths(here, d.subdirectories@))[0] == p);
    } else {
        let c = d.subdirectories@[j];
        let there = join_path(here, c.path@);
        assert((seq![there] + dirs_paths(there, c.subdirectories@))[0] == p);
        lemma_dir_child(base, d, j, p);
    }
    lemma_dirs_member(base, ds, k, p);
}

/// Every directory two levels down in the list has nothing inside it.
pub open spec fn two_levels(ds: Seq<DirectoryDefinition>) -> bool {
    forall|k: int, j: int| 0 <= k < ds.len() && 0 <= j < ds[k].subdirectories@.len()
        ==> (#[trigger] ds[k].subdirectories@[j]).subdirectories@.len() == 0
}

/// A path laid out from a list of directories at most two levels deep is the path of one of
/// the directories of the list (`-1`) or of a directory inside one.
proof fn lemma_two_level_locate(base: Seq<char>, ds: Seq<DirectoryDefinition>, p: Seq<char>) -> (kj: (int, int))
    requires
        two_levels(ds),
        dirs_paths(base, ds).contains(p),
    ensures
        0 <= kj.0 < ds.len(),
        kj.1 == -1 ==> p == join_path(base, ds[kj.0].path@),
        kj.1 != -1 ==> 0 <= kj.1 < ds[kj.0].subdirectories@.len()
            && p == join_path(join_path(base, ds[kj.0].path@), ds[kj.0].subdirectories@[kj.1].path@),
{
    let k = lemma_dirs_locate(base, ds, p);
    let j = lemma_dir_locate(base, ds[k], p);
    if j != -1 {
        let c = ds[k].subdirectories@[j];
        lemma_leaf(join_path(base, ds[k].path@), c);
    }
    (k, j)
}

/// The three built-in templates nest: every directory of the minimal template is one of the
/// standard template, and every directory of the standard template is one of the extended
/// template, wherever they are laid out. All three have the same version and the same files.
pub proof fn law_templates_nest(
    minimal: DirectoryTemplate,
    standard: DirectoryTemplate,
    extended: DirectoryTemplate,
    base: Seq<char>,
)
    requires
        is_minimal_template(minimal),
        is_standard_template(standard),
        is_extended_template(extended),
    ensures
        forall|p: Seq<char>| #[trigger] dirs_paths(base, minimal.directories@).contains(p)
            ==> dirs_paths(base, standard.directories@).contains(p),
        forall|p: Seq<char>| #[trigger] dirs_paths(base, standard.directories@).contains(p)
            ==> dirs_paths(base, extended.directories@).contains(p),
        minimal.version@ == standard.version@,
        standard.version@ == extended.version@,
        minimal.files@.len() == 2 && standard.files@.len() == 2 && extended.files@.len() == 2,
        forall|i: int| 0 <= i < 2 ==> #[trigger] minimal.files@[i].path@ == standard.files@[i].path@
            && standard.files@[i].path@ == extended.files@[i].path@,
{
    let mn = minimal.directories@;
    let st = standard.directories@;
    let ex = extended.directories@;
    assert forall|p: Seq<char>| #[trigger] dirs_paths(base, mn).contains(p)
        implies dirs_paths(base, st).contains(p) by {
        let kj = lemma_two_level_locate(base, mn, p);
        lemma_path_at(base, st, 0, -1, p);
    }
    assert forall|p: Seq<char>| #[trigger] dirs_paths(base, st).contains(p)
        implies dirs_paths(base, ex).contains(p) by {
        let (k, j) = lemma_two_level_locate(base, st, p);
        if j == -1 {
            lemma_path_at(base, ex, k, -1, p);
        } else if k == 0 {
            lemma_path_at(base, ex, 0, j, p);
        } else if k == 1 {
            lemma_path_at(base, ex, 1, j + 1, p);
        } else {
            lemma_path_at(base, ex, 2, j, p);
        }
    }
}

/// A directory definition.
fn dir(path: &str, description: &str, required: bool, subdirectories: Vec<DirectoryDefinition>) -> (r: DirectoryDefinition)
    ensures
        r.path@ == path@,
        r.description@ == description@,
        r.required == required,
        r.subdirectories@ == subdirectories@,
{
    DirectoryDefinition { path: owned(path), description: owned(description), required, subdirectories }
}

/// The files of a built-in template of the given kind.
fn default_template_files(kind: &str) -> (r: Vec<FileDefinition>)
    ensures
        template_files(r@, kind@),
{
    let mut readme = owned("templates/readme/");
    push_str(&mut readme, kind);
    push_str(&mut readme, ".md");
    let mut db = owned("templates/database/");
    push_str(&mut db, kind);
    push_str(&mut db, ".db");
    vec![
        FileDefinition {
            path: owned("README.md"),
            description: owned("Human-readable part description"),
            required: true,
            template: Some(readme),
        },
        FileDefinition {
            path: owned("metadata.db"),
            description: owned("SQLite database with part metadata"),
            required: true,
            template: Some(db),
        },
    ]
}

impl<'a> DirectoryTemplateManager<'a> {
    /// The minimal template: minimal directory structure for parts with only essential directories.
    pub fn create_minimal_template(&self) -> (r: DirectoryTemplate)
        ensures
            is_minimal_template(r),
    {
        let directories = vec![
            dir("design", "Design files", true, vec![]),
        ];
        DirectoryTemplate {
            name: owned("Minimal Template"),
            description: owned("Minimal directory structure for parts with only essential directories"),
            version: owned("1.0.0"),
            directories,
            files: default_template_files("minimal"),
        }
    }

    /// The standard template: standard directory structure for parts with commonly used directories.
    pub fn create_standard_template(&self) -> (r: DirectoryTemplate)
        ensures
            is_standard_template(r),
    {
        let directories = vec![
            dir("design", "Design files", true, vec![
                dir("models", "3D models", false, vec![]),
                dir("schematics", "Schematics and diagrams", false, vec![]),
            ]),
            dir("manufacturing", "Manufacturing output files", true, vec![
                dir("bom", "Bill of Materials", true, vec![]),
                dir("assembly", "Assembly instructions", false, vec![]),
            ]),
            dir("documentation", "Documentation files", true, vec![
                dir("datasheets", "Component datasheets", false, vec![]),
                dir("specifications", "Specifications", true, vec![]),
            ]),
        ];
        DirectoryTemplate {
            name: owned("Standard Template"),
            description: owned("Standard directory structure for parts with commonly used directories"),
            version: owned("1.0.0"),
            directories,
            files: default_template_files("standard"),
        }
    }

    /// The extended template: extended directory structure for parts with all possible directories.
    pub fn create_extended_template(&self) -> (r: DirectoryTemplate)
        ensures
            is_extended_template(r),
    {
        let directories = vec![
            dir("design", "Design files", true, vec![
                dir("models", "3D models", true, vec![
                    dir("step", "STEP format models", false, vec![]),
                    dir("stl", "STL format models", false, vec![]),
                ]),
                dir("schematics", "Schematics and diagrams", true, vec![
                    dir("pdf", "PDF exports", false, vec![]),
                    dir("svg", "SVG exports", false, vec![]),
                ]),
                dir("source", "Source files for design", true, vec![
                    dir("kicad", "KiCad project files", false, vec![]),
                    dir("freecad", "FreeCAD project files", false, vec![]),
                ]),
            ]),
            dir("manufacturing", "Manufacturing output files", true, vec![
                dir("gerbers", "Gerber files for PCBs", false, vec![]),
                dir("bom", "Bill of Materials", true, vec![]),
                dir("assembly", "Assembly instructions", true, vec![
                    dir("images", "Images for assembly instructions", false, vec![]),
                ]),
                dir("drawings", "Technical drawings", true, vec![
                    dir("pdf", "PDF format drawings", false, vec![]),
                    dir("dxf", "DXF format drawings", false, vec![]),
                ]),
            ]),
            dir("documentation", "Documentation files", true, vec![
                dir("datasheets", "Component datasheets", true, vec![]),
                dir("specifications", "Specifications", true, vec![
                    dir("electrical", "Electrical specifications", false, vec![]),
                    dir("mechanical", "Mechanical specifications", false, vec![]),
                    dir("environmental", "Environmental specifications", false, vec![]),
                ]),
                dir("user-guides", "User guides", true, vec![
                    dir("installation", "Installation guides", false, vec![]),
                    dir("operation", "Operation guides", false, vec![]),
                    dir("maintenance", "Maintenance guides", false, vec![]),
                ]),
            ]),
            dir("tests", "Test files and results", true, vec![
                dir("test-plans", "Test plans", true, vec![
                    dir("functional", "Functional test plans", false, vec![]),
                    dir("performance", "Performance test plans", false, vec![]),
                    dir("compliance", "Compliance test plans", false, vec![]),
                ]),
                dir("test-results", "Test results", true, vec![
                    dir("functional", "Functional test results", false, vec![]),
                    dir("performance", "Performance test results", false, vec![]),
                    dir("compliance", "Compliance test results", false, vec![]),
                ]),
                dir("test-fixtures", "Test fixtures", true, vec![
                    dir("hardware", "Hardware test fixtures", false, vec![]),
                    dir("software", "Software test fixtures", false, vec![]),
                ]),
            ]),
        ];
        DirectoryTemplate {
            name: owned("Extended Template"),
            description: owned("Extended directory structure for parts with all possible directories"),
            version: owned("1.0.0"),
            directories,
            files: default_template_files("extended"),
        }
    }
}

/// What is done for a file of a template when a part directory is laid out.
#[derive(Debug, Clone, PartialEq, Eq)]
pub enum FileAction {
    /// The file exists already and is left as it is.
    Keep,
    /// The file is made as a copy of the template file at this path.
    CopyFrom(String),
    /// The file is made empty.
    CreateEmpty,
}

/// Where a file of a template goes in the part directory `part_dir`.
pub fn file_target(part_dir: &str, file: &FileDefinition) -> (r: String)
    ensures
        r@ == join_path(part_dir@, file.path@),
{
    join(part_dir, file.path.as_str())
}

impl<'a> DirectoryTemplateManager<'a> {
    /// The path of the template file that a file of a template starts from, if it names one.
    pub fn template_source(&self, file: &FileDefinition) -> (r: Option<String>)
        ensures
            match (file.template, r) {
                (Some(t), Some(p)) => p@ == join_path(self.repo_path(), t@),
                (None, None) => true,
                _ => false,
            },
    {
        match &file.template {
            Some(t) => Some(join(self.repo_path.as_str(), t.as_str())),
            None => None,
        }
    }

    /// What to do for a file of a template, given whether the file exists already and
    /// whether the template file it names exists: an existing file is kept; otherwise it is
    /// copied from its template file where that exists, and made empty where not.
    pub fn file_action(&self, file: &FileDefinition, target_exists: bool, source_exists: bool) -> (r: FileAction)
        ensures
            target_exists ==> r == FileAction::Keep,
            !target_exists ==> match file.template {
                Some(t) => if source_exists {
                    r matches FileAction::CopyFrom(p) && p@ == join_path(self.repo_path(), t@)
                } else {
                    r == FileAction::CreateEmpty
                },
                None => r == FileAction::CreateEmpty,
            },
    {
        if target_exists {
            return FileAction::Keep;
        }
        match self.template_source(file) {
            Some(p) => if source_exists { FileAction::CopyFrom(p) } else { FileAction::CreateEmpty },
            None => FileAction::CreateEmpty,
        }
    }
}

/// A custom template with the given name, description, directories and files, at version
/// `1.0.0`.
pub fn custom_template(
    name: &str,
    description: &str,
    directories: Vec<DirectoryDefinition>,
    files: Vec<FileDefinition>,
) -> (r: DirectoryTemplate)
    ensures
        r.name@ == name@,
        r.description@ == description@,
        r.version@ == "1.0.0"@,
        r.directories@ == directories@,
        r.files@ == files@,
{
    DirectoryTemplate {
        name: owned(name),
        description: owned(description),
        version: owned("1.0.0"),
        directories,
        files,
    }
}

/// The error given when a template's file does not exist.
pub fn template_not_found(path: &str) -> (r: GitBackendError)
    ensures
        r matches GitBackendError::RepositoryError(m) && m@ == "Template file not found: "@ + path@,
{
    let mut m = owned("Template file not found: ");
    push_str(&mut m, path);
    GitBackendError::RepositoryError(m)
}

/// The error given when a template's file cannot be read as a template, with the reason.
pub fn template_unreadable(reason: &str) -> (r: GitBackendError)
    ensures
        r matches GitBackendError::RepositoryError(m) && m@ == "Failed to parse template file: "@ + reason@,
{
    let mut m = owned("Failed to parse template file: ");
    push_str(&mut m, reason);
    GitBackendError::RepositoryError(m)
}

/// The names of the built-in templates, in the order they are listed.
pub fn builtin_template_names() -> (r: Vec<String>)
    ensures
        string_views(r@) == seq!["minimal"@, "standard"@, "extended"@],
{
    let r = vec![owned("minimal"), owned("standard"), owned("extended")];
    assert(string_views(r@) =~= seq!["minimal"@, "standard"@, "extended"@]);
    r
}

/// The position of the last `.` among the first `n` characters of `s`, if there is one.
pub open spec fn last_dot_before(s: Seq<char>, n: int) -> Option<int>
    decreases n,
{
    if n <= 0 {
        None
    } else if s[n - 1] == '.' {
        Some(n - 1)
    } else {
        last_dot_before(s, n - 1)
    }
}

/// The extension of a file name (`Path::extension` on a file name): what follows its last `.`,
/// unless that `.` is the first character or the name is `..`.
pub open spec fn name_extension(name: Seq<char>) -> Option<Seq<char>> {
    if name == ".."@ {
        None
    } else {
        match last_dot_before(name, name.len() as int) {
            Some(i) => if i == 0 { None } else { Some(name.subrange(i + 1, name.len() as int)) },
            None => None,
        }
    }
}

/// The stem of a file name (`Path::file_stem` on a file name): what comes before the last `.`
/// where there is an extension, else the whole name.
pub open spec fn name_stem(name: Seq<char>) -> Seq<char> {
    match name_extension(name) {
        Some(e) => name.subrange(0, name.len() - e.len() - 1),
        None => name,
    }
}

proof fn lemma_last_dot_bounds(s: Seq<char>, n: int)
    requires
        n <= s.len(),
    ensures
        match last_dot_before(s, n) {
            Some(i) => 0 <= i < n && s[i] == '.' && forall|j: int| i < j < n ==> s[j] != '.',
            None => forall|j: int| 0 <= j < n ==> s[j] != '.',
        },
    decreases n,
{
    if n > 0 && s[n - 1] != '.' {
        lemma_last_dot_bounds(s, n - 1);
    }
}

/// The name under which a directory entry of the custom template directory is listed:
/// `custom/<stem>` for a file whose extension is `json`, none for anything else.
pub fn custom_template_name(file_name: &str, is_file: bool) -> (r: Option<String>)
    ensures
        r matches Some(n) ==> n@ == "custom/"@ + name_stem(file_name@),
        r is Some <==> is_file && name_extension(file_name@) == Some("json"@),
{
    let v = chars_of(file_name);
    let n = v.len();
    let mut i: usize = n;
    while i > 0
        invariant
            i <= n,
            n == v.len(),
            v@ == file_name@,
            last_dot_before(v@, n as int) == last_dot_before(v@, i as int),
        ensures
            i <= n,
            last_dot_before(v@, n as int) == last_dot_before(v@, i as int),
            i == 0 || v@[i - 1] == '.',
        decreases i,
    {
        if v[i - 1] == '.' {
            break;
        }
        i = i - 1;
    }
    proof {
        reveal_strlit("..");
        reveal_strlit("json");
        lemma_last_dot_bounds(v@, n as int);
    }
    if !is_file || i <= 1 || n - i != 4 || v[i] != 'j' || v[i + 1] != 's' || v[i + 2] != 'o' || v[i + 3] != 'n' {
        proof {
            if is_file && name_extension(file_name@) == Some("json"@) {
                assert(v@ != ".."@);
                let e = v@.subrange(i as int, n as int);
                assert(e.len() == 4);
                assert(e[0] == 'j' && e[1] == 's' && e[2] == 'o' && e[3] == 'n');
            }
        }
        return None;
    }
    assert(v@ != ".."@) by {
        if v@ =~= ".."@ {
            assert(v@[1] == '.');
        }
    }
    assert(v@.subrange(i as int, n as int) =~= "json"@);
    let mut r = owned("custom/");
    let mut k: usize = 0;
    let ghost start = r@;
    while k < i - 1
        invariant
            k <= i - 1,
            i <= n,
            n == v.len(),
            r@ == start + v@.subrange(0, k as int),
        decreases i - 1 - k,
    {
        crate::text::push_char(&mut r, v[k]);
        assert(v@.subrange(0, k + 1) =~= v@.subrange(0, k as int).push(v@[k as int]));
        k = k + 1;
    }
    Some(r)
}

/// The README a part of the minimal template starts from.
pub const MINIMAL_README: &'static str = r#"# [Part Number]

## Description

Brief description of the part.

## Specifications

- Specification 1
- Specification 2

## Usage

How to use this part.
"#;

/// The README a part of the standard template starts from.
pub const STANDARD_README: &'static str = r#"# [Part Number]

## Description

Detailed description of the part.

## Specifications

### Electrical
- Voltage: 
- Current: 
- Power: 

### Mechanical
- Dimensions: 
- Weight: 
- Material: 

## Usage

Detailed instructions on how to use this part.

## Manufacturing Notes

Notes for manufacturing this part.

## Related Parts

- Related part 1
- Related part 2
"#;

/// The README a part of the extended template starts from.
pub const EXTENDED_README: &'static str = r#"# [Part Number]

## Description

Comprehensive description of the part, including its purpose, features, and benefits.

## Specifications

### Electrical
- Voltage: 
- Current: 
- Power: 
- Resistance: 
- Capacitance: 
- Inductance: 

### Mechanical
- Dimensions: 
- Weight: 
- Material: 
- Finish: 
- Mounting: 

### Environmental
- Operating Temperature: 
- Storage Temperature: 
- Humidity: 
- IP Rating: 

## Usage

Detailed instructions on how to use this part, including:
- Installation
- Configuration
- Operation
- Maintenance

## Manufacturing Notes

Comprehensive notes for manufacturing this part, including:
- Process requirements
- Special considerations
- Quality control measures

## Testing

Testing procedures and requirements for this part.

## Compliance

Compliance information for this part, including:
- RoHS
- REACH
- UL
- CE

## Related Parts

- Related part 1
- Related part 2
- Related part 3

## Revision History

| Revision | Date | Description |
|----------|------|-------------|
| 1.0.0    |      | Initial release |
"#;

/// The README templates of a repository, by file name in `templates/readme`, in the order
/// they are written.
pub fn readme_templates() -> (r: Vec<(&'static str, &'static str)>)
    ensures
        r@.map_values(|t: (&'static str, &'static str)| (t.0@, t.1@)) == seq![
            ("minimal.md"@, MINIMAL_README@),
            ("standard.md"@, STANDARD_README@),
            ("extended.md"@, EXTENDED_README@),
        ],
{
    let r = vec![("minimal.md", MINIMAL_README), ("standard.md", STANDARD_README), ("extended.md", EXTENDED_README)];
    assert(r@.map_values(|t: (&'static str, &'static str)| (t.0@, t.1@)) =~= seq![
        ("minimal.md"@, MINIMAL_README@),
        ("standard.md"@, STANDARD_README@),
        ("extended.md"@, EXTENDED_README@),
    ]);
    r
}

impl<'a> DirectoryTemplateManager<'a> {
    /// The directory that holds the README templates: `templates/readme`.
    pub fn readme_template_dir(&self) -> (r: String)
        ensures
            r@ == join_path(join_path(self.repo_path(), "templates"@), "readme"@),
    {
        let t = join(self.repo_path.as_str(), "templates");
        join(t.as_str(), "readme")
    }
}

} // verus!
