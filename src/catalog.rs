//! The panel catalog: the definition files that loaded, indexed from 1 in the
//! order in which they were handed in, and the loader that builds it.
use vstd::prelude::*;
use crate::json::{json_of, parse_json, Json};
use crate::model::{json_diagram, Diagram};
use crate::schema::{schema_accepts, schema_compiles, DiagramSchema, DIAGRAM_SCHEMA};

verus! {

/// One loaded panel: its display title and the file it was read from.
#[derive(Clone, Debug)]
pub struct PanelDefinition {
    pub title: String,
    pub json_file: String,
}

/// Why a definition file was left out of the catalog.
#[derive(Clone, Debug)]
pub enum FileError {
    /// The file could not be read.
    Read,
    /// The contents are not a JSON document.
    Parse,
    /// The document breaks the schema: one message per violated constraint.
    Schema(Vec<String>),
    /// The document passed the schema but does not encode a diagram.
    Conversion,
}

/// A definition file that was left out, and why.
#[derive(Clone, Debug)]
pub struct Rejected {
    pub path: String,
    pub error: FileError,
}

/// A candidate definition file: its path, and its contents where it could be read.
#[derive(Clone, Debug)]
pub struct SourceFile {
    pub path: String,
    pub contents: Option<Vec<u8>>,
}

/// The (title, path) of each panel, in index order.
pub open spec fn entries_of(panels: Seq<PanelDefinition>) -> Seq<(Seq<char>, Seq<char>)> {
    panels.map_values(|p: PanelDefinition| (p.title@, p.json_file@))
}

/// The (title, path) of each outcome that is a panel, in order.
pub open spec fn successes(outcomes: Seq<Result<PanelDefinition, Rejected>>) -> Seq<
    (Seq<char>, Seq<char>),
>
    decreases outcomes.len(),
{
    if outcomes.len() == 0 {
        Seq::empty()
    } else {
        let before = successes(outcomes.drop_last());
        match outcomes.last() {
            Ok(p) => before.push((p.title@, p.json_file@)),
            Err(_) => before,
        }
    }
}

/// The outcomes that are rejections, in order.
pub open spec fn failures(outcomes: Seq<Result<PanelDefinition, Rejected>>) -> Seq<Rejected>
    decreases outcomes.len(),
{
    if outcomes.len() == 0 {
        Seq::empty()
    } else {
        let before = failures(outcomes.drop_last());
        match outcomes.last() {
            Ok(_) => before,
            Err(r) => before.push(r),
        }
    }
}

/// The catalog of loaded panels. The panel at index `i` (from 1) is the
/// `i`-th one added, so the indices are always `1..=len()` with no gap.
#[derive(Debug)]
pub struct PanelHash {
    panels: Vec<PanelDefinition>,
}

impl View for PanelHash {
    type V = Seq<(Seq<char>, Seq<char>)>;

    closed spec fn view(&self) -> Seq<(Seq<char>, Seq<char>)> {
        entries_of(self.panels@)
    }
}

impl PanelHash {
    /// An empty catalog.
    pub fn new() -> (r: PanelHash)
        ensures
            r@ == Seq::<(Seq<char>, Seq<char>)>::empty(),
    {
        let r = PanelHash { panels: Vec::new() };
        assert(r@ =~= Seq::<(Seq<char>, Seq<char>)>::empty());
        r
    }

    /// Builds the catalog from the per-file outcomes, in order: each panel gets
    /// the next index, and a rejection takes none.
    pub fn from_outcomes(outcomes: Vec<Result<PanelDefinition, Rejected>>) -> (r: (
        PanelHash,
        Vec<Rejected>,
    ))
        ensures
            r.0@ == successes(outcomes@),
            r.1@ == failures(outcomes@),
    {
        let ghost all = outcomes@;
        let mut rest = outcomes;
        let mut panels: Vec<PanelDefinition> = Vec::new();
        let mut rejected: Vec<Rejected> = Vec::new();
        let ghost mut done: int = 0;
        while rest.len() > 0
            invariant
                0 <= done <= all.len(),
                rest@ == all.subrange(done, all.len() as int),
                entries_of(panels@) == successes(all.subrange(0, done)),
                rejected@ == failures(all.subrange(0, done)),
            decreases rest@.len(),
        {
            let o = rest.remove(0);
            proof {
                assert(all.subrange(0, done + 1).drop_last() =~= all.subrange(0, done));
                assert(all.subrange(0, done + 1).last() == o);
            }
            match o {
                Ok(p) => {
                    panels.push(p);
                    assert(entries_of(panels@) =~= successes(all.subrange(0, done + 1)));
                },
                Err(e) => {
                    rejected.push(e);
                },
            }
            proof {
                done = done + 1;
                assert(rest@ =~= all.subrange(done, all.len() as int));
            }
        }
        assert(all.subrange(0, done) =~= all);
        (PanelHash { panels }, rejected)
    }

    /// The number of panels.
    pub fn len(&self) -> (r: usize)
        ensures
            r == self@.len(),
    {
        self.panels.len()
    }

    /// Whether there are no panels: a load that found nothing usable.
    pub fn is_empty(&self) -> (r: bool)
        ensures
            r == (self@.len() == 0),
    {
        self.panels.len() == 0
    }

    /// Whether `index` names a panel.
    pub fn contains_key(&self, index: usize) -> (r: bool)
        ensures
            r == (1 <= index <= self@.len()),
    {
        1 <= index && index <= self.panels.len()
    }

    /// The panel at `index`, if there is one.
    pub fn get(&self, index: usize) -> (r: Option<&PanelDefinition>)
        ensures
            match r {
                Some(p) => 1 <= index <= self@.len() && self@[index - 1] == (p.title@, p.json_file@),
                None => !(1 <= index <= self@.len()),
            },
    {
        if 1 <= index && index <= self.panels.len() {
            Some(&self.panels[index - 1])
        } else {
            None
        }
    }

    /// The title of the panel at `index`, if there is one.
    pub fn title_of(&self, index: usize) -> (r: Option<String>)
        ensures
            match r {
                Some(t) => 1 <= index <= self@.len() && t@ == self@[index - 1].0,
                None => !(1 <= index <= self@.len()),
            },
    {
        match self.get(index) {
            Some(p) => Some(p.title.clone()),
            None => None,
        }
    }

    /// Each index with the title of its panel, in index order.
    pub fn entries_in_order(&self) -> (r: Vec<(usize, String)>)
        ensures
            r@.len() == self@.len(),
            forall|k: int| 0 <= k < r@.len() ==> #[trigger] r@[k].0 == k + 1 && r@[k].1@ == self@[k].0,
    {
        let mut out: Vec<(usize, String)> = Vec::new();
        let mut i: usize = 0;
        while i < self.panels.len()
            invariant
                i <= self.panels@.len(),
                out@.len() == i,
                self@ == entries_of(self.panels@),
                forall|k: int| 0 <= k < i ==> #[trigger] out@[k].0 == k + 1 && out@[k].1@ == self@[k].0,
            decreases self.panels@.len() - i,
        {
            out.push((i + 1, self.panels[i].title.clone()));
            i = i + 1;
        }
        out
    }
}

/// `j` encodes some diagram.
pub open spec fn encodes_diagram(j: Json) -> bool {
    exists|d: Diagram| json_diagram(Some(j), d)
}

/// The title of the panel that `j` encodes, where it encodes a diagram (all
/// diagrams that `j` encodes share it: see `lemma_reload_keeps_title`).
pub open spec fn diagram_title(j: Json) -> Seq<char> {
    (choose|d: Diagram| json_diagram(Some(j), d)).layout.panel.title@
}

/// The bytes of a definition file load: they parse, the schema accepts them,
/// and they encode a diagram.
pub open spec fn document_loads(bytes: Seq<u8>) -> bool {
    match json_of(bytes) {
        Some(j) => schema_accepts(bytes) && encodes_diagram(j),
        None => false,
    }
}

/// The title of the panel that the bytes of a definition file encode.
pub open spec fn document_title(bytes: Seq<u8>) -> Seq<char> {
    match json_of(bytes) {
        Some(j) => diagram_title(j),
        None => Seq::empty(),
    }
}

/// `f` could be read and its contents load.
pub open spec fn file_loads(f: SourceFile) -> bool {
    match f.contents {
        Some(b) => document_loads(b@),
        None => false,
    }
}

/// The (title, path) entry that a loading file gives.
pub open spec fn file_entry(f: SourceFile) -> (Seq<char>, Seq<char>) {
    match f.contents {
        Some(b) => (document_title(b@), f.path@),
        None => (Seq::empty(), f.path@),
    }
}

/// The catalog of `files`: one entry for each file that loads, in order.
pub open spec fn catalog_of(files: Seq<SourceFile>) -> Seq<(Seq<char>, Seq<char>)>
    decreases files.len(),
{
    if files.len() == 0 {
        Seq::empty()
    } else {
        let before = catalog_of(files.drop_last());
        if file_loads(files.last()) {
            before.push(file_entry(files.last()))
        } else {
            before
        }
    }
}

/// The paths of the files that do not load, in order.
pub open spec fn rejected_paths(files: Seq<SourceFile>) -> Seq<Seq<char>>
    decreases files.len(),
{
    if files.len() == 0 {
        Seq::empty()
    } else {
        let before = rejected_paths(files.drop_last());
        if file_loads(files.last()) {
            before
        } else {
            before.push(files.last().path@)
        }
    }
}

/// The paths of a list of rejections.
pub open spec fn paths_of(rejected: Seq<Rejected>) -> Seq<Seq<char>> {
    rejected.map_values(|x: Rejected| x.path@)
}

/// `o` is what reading `f` gives: its entry where it loads, and otherwise a
/// rejection of its path, which is a read failure exactly where `f` could not
/// be read.
pub open spec fn outcome_of(f: SourceFile, o: Result<PanelDefinition, Rejected>) -> bool {
    match o {
        Ok(p) => file_loads(f) && (p.title@, p.json_file@) == file_entry(f),
        Err(x) => !file_loads(f) && x.path@ == f.path@ && (x.error is Read <==> f.contents is None),
    }
}

/// The definition files that loaded, and those that did not.
pub struct PanelList {
    /// The catalog, indexed from 1.
    pub panels: PanelHash,
    /// Each file that was left out, and why, in the order handed in.
    pub rejected: Vec<Rejected>,
}

impl PanelList {
    /// Decides on one definition document: `doc` is its parsed form (`None`
    /// where it could not be parsed) and `violations` what the schema found
    /// wrong with it.
    pub fn admit_document(json_file: String, doc: Option<Json>, violations: Vec<String>) -> (r:
        Result<PanelDefinition, FileError>)
        ensures
            violations@.len() > 0 ==> r == Err::<PanelDefinition, FileError>(
                FileError::Schema(violations),
            ),
            violations@.len() == 0 ==> match doc {
                None => r == Err::<PanelDefinition, FileError>(FileError::Parse),
                Some(j) => match r {
                    Ok(p) => encodes_diagram(j) && p.title@ == diagram_title(j) && p.json_file@
                        == json_file@,
                    Err(e) => e == FileError::Conversion && !encodes_diagram(j),
                },
            },
    {
        if violations.len() > 0 {
            return Err(FileError::Schema(violations));
        }
        match doc {
            None => Err(FileError::Parse),
            Some(j) => match Diagram::from_json(&j) {
                Some(d) => {
                    proof {
                        lemma_title_of_encoding(j, d);
                    }
                    Ok(PanelDefinition { title: d.layout.panel.title, json_file })
                },
                None => Err(FileError::Conversion),
            },
        }
    }

    /// Reads one definition file: parses its contents, checks them against the
    /// schema and decodes the diagram, whose title becomes the panel's title.
    pub fn read_defn_file(json_file: String, contents: Option<Vec<u8>>, schema: &DiagramSchema) -> (r:
        Result<PanelDefinition, FileError>)
        ensures
            match contents {
                None => r == Err::<PanelDefinition, FileError>(FileError::Read),
                Some(b) => {
                    &&& (r matches Err(FileError::Parse)) <==> json_of(b@) is None
                    &&& (r matches Err(FileError::Schema(_))) <==> (json_of(b@) is Some
                        && !schema_accepts(b@))
                    &&& (r matches Err(FileError::Conversion)) <==> (json_of(b@) is Some
                        && schema_accepts(b@) && !encodes_diagram(json_of(b@)->Some_0))
                    &&& r is Ok <==> document_loads(b@)
                    &&& r matches Ok(p) ==> p.title@ == document_title(b@) && p.json_file@
                        == json_file@
                },
            },
            r matches Err(FileError::Schema(v)) ==> v@.len() > 0,
    {
        match contents {
            None => Err(FileError::Read),
            Some(bytes) => match parse_json(bytes.as_slice()) {
                Err(_) => Err(FileError::Parse),
                Ok(j) => {
                    let violations = schema.violations(bytes.as_slice());
                    Self::admit_document(json_file, Some(j), violations)
                },
            },
        }
    }

    /// Reads each candidate file, in the order given.
    pub fn read_all(files: Vec<SourceFile>, schema: &DiagramSchema) -> (r: Vec<
        Result<PanelDefinition, Rejected>,
    >)
        ensures
            r@.len() == files@.len(),
            forall|i: int| 0 <= i < r@.len() ==> #[trigger] outcome_of(files@[i], r@[i]),
    {
        let ghost input = files@;
        let mut rest = files;
        let mut outcomes: Vec<Result<PanelDefinition, Rejected>> = Vec::new();
        while rest.len() > 0
            invariant
                outcomes@.len() + rest@.len() == input.len(),
                rest@ == input.subrange(outcomes@.len() as int, input.len() as int),
                forall|i: int| 0 <= i < outcomes@.len() ==> #[trigger] outcome_of(input[i], outcomes@[i]),
            decreases rest@.len(),
        {
            let ghost k = outcomes@.len() as int;
            let f = rest.remove(0);
            assert(f == input[k]);
            let path = f.path.clone();
            let read = Self::read_defn_file(f.path, f.contents, schema);
            match read {
                Ok(p) => {
                    let ghost o: Result<PanelDefinition, Rejected> = Ok(p);
                    assert(o matches Ok(q) && q == p);
                    assert(outcome_of(f, o));
                    outcomes.push(Ok(p));
                },
                Err(error) => {
                    let x = Rejected { path, error };
                    let ghost o: Result<PanelDefinition, Rejected> = Err(x);
                    assert(o matches Err(y) && y == x);
                    assert(outcome_of(f, o));
                    outcomes.push(Err(x));
                },
            }
            assert(outcome_of(input[k], outcomes@[k]));
            assert(rest@ =~= input.subrange(outcomes@.len() as int, input.len() as int));
        }
        outcomes
    }

    /// Loads each candidate file in the order given. Each file that loads gets
    /// the next index; a file that fails is reported in `rejected` and takes none.
    pub fn load_panels(files: Vec<SourceFile>, schema: &DiagramSchema) -> (r: PanelList)
        ensures
            r.panels@ == catalog_of(files@),
            paths_of(r.rejected@) == rejected_paths(files@),
            r.panels@.len() + r.rejected@.len() == files@.len(),
    {
        let ghost input = files@;
        let outcomes = Self::read_all(files, schema);
        let ghost oc = outcomes@;
        proof {
            lemma_outcome_counts(oc);
            lemma_outcomes_give_catalog(input, oc);
        }
        let (panels, rejected) = PanelHash::from_outcomes(outcomes);
        PanelList { panels, rejected }
    }

    /// Compiles the schema and loads the candidate files.
    pub fn new(files: Vec<SourceFile>) -> (r: Option<PanelList>)
        ensures
            r is Some <==> schema_compiles(DIAGRAM_SCHEMA@),
            r matches Some(l) ==> {
                &&& l.panels@ == catalog_of(files@)
                &&& paths_of(l.rejected@) == rejected_paths(files@)
                &&& l.panels@.len() + l.rejected@.len() == files@.len()
            },
    {
        match DiagramSchema::new() {
            Some(schema) => Some(Self::load_panels(files, &schema)),
            None => None,
        }
    }
}

/// Every diagram that `j` encodes has the title `diagram_title(j)`.
proof fn lemma_title_of_encoding(j: Json, d: Diagram)
    requires
        json_diagram(Some(j), d),
    ensures
        encodes_diagram(j),
        diagram_title(j) == d.layout.panel.title@,
{
    let e = choose|e: Diagram| json_diagram(Some(j), e);
    assert(json_diagram(Some(j), e));
}

/// The per-file outcomes, gathered in order, give the catalog of the files
/// and the paths of those that failed.
proof fn lemma_outcomes_give_catalog(
    files: Seq<SourceFile>,
    oc: Seq<Result<PanelDefinition, Rejected>>,
)
    requires
        oc.len() == files.len(),
        forall|i: int| 0 <= i < oc.len() ==> #[trigger] outcome_of(files[i], oc[i]),
    ensures
        successes(oc) == catalog_of(files),
        paths_of(failures(oc)) == rejected_paths(files),
    decreases oc.len(),
{
    if oc.len() > 0 {
        let n = oc.len() - 1;
        assert forall|i: int| 0 <= i < n implies #[trigger] outcome_of(
            files.drop_last()[i],
            oc.drop_last()[i],
        ) by {
            assert(outcome_of(files[i], oc[i]));
        }
        lemma_outcomes_give_catalog(files.drop_last(), oc.drop_last());
        assert(outcome_of(files[n], oc[n]));
        assert(paths_of(failures(oc)) =~= rejected_paths(files));
    } else {
        assert(paths_of(failures(oc)) =~= rejected_paths(files));
    }
}

/// Where every file loads, the catalog holds one entry per file: the file at
/// position `i` (from 0) is at index `i + 1`, with its own title and path.
pub proof fn lemma_all_loaded(files: Seq<SourceFile>)
    requires
        forall|i: int| 0 <= i < files.len() ==> #[trigger] file_loads(files[i]),
    ensures
        catalog_of(files).len() == files.len(),
        forall|i: int| 0 <= i < files.len() ==> #[trigger] catalog_of(files)[i] == file_entry(files[i]),
    decreases files.len(),
{
    if files.len() > 0 {
        let prev = files.drop_last();
        assert forall|i: int| 0 <= i < prev.len() implies #[trigger] file_loads(prev[i]) by {
            assert(file_loads(files[i]));
        }
        lemma_all_loaded(prev);
        assert(file_loads(files[files.len() - 1]));
        assert forall|i: int| 0 <= i < files.len() implies #[trigger] catalog_of(files)[i]
            == file_entry(files[i]) by {
            if i < prev.len() {
                assert(catalog_of(prev)[i] == file_entry(prev[i]));
            }
        }
    }
}

/// Only the files that load give entries, in the order given, each at the
/// next index: the catalog is the loading files with the others taken out,
/// so a file that fails leaves no gap.
pub proof fn lemma_dense_over_loaded(files: Seq<SourceFile>)
    ensures
        catalog_of(files) == files.filter(|f: SourceFile| file_loads(f)).map_values(
            |f: SourceFile| file_entry(f),
        ),
    decreases files.len(),
{
    reveal(Seq::filter);
    let p = |f: SourceFile| file_loads(f);
    let g = |f: SourceFile| file_entry(f);
    if files.len() == 0 {
        assert(files.filter(p).map_values(g) =~= Seq::empty());
    } else {
        lemma_dense_over_loaded(files.drop_last());
        if file_loads(files.last()) {
            assert(files.filter(p) == files.drop_last().filter(p).push(files.last()));
            assert(files.filter(p).map_values(g) =~= files.drop_last().filter(p).map_values(g).push(
                g(files.last()),
            ));
        } else {
            assert(files.filter(p) == files.drop_last().filter(p));
        }
    }
}

/// Taking out files that fail to load changes nothing in the catalog.
pub proof fn lemma_failed_files_change_nothing(files: Seq<SourceFile>)
    ensures
        catalog_of(files.filter(|f: SourceFile| file_loads(f))) == catalog_of(files),
{
    let p = |f: SourceFile| file_loads(f);
    lemma_dense_over_loaded(files);
    lemma_dense_over_loaded(files.filter(p));
    lemma_filter_twice(files, p);
}

proof fn lemma_filter_twice(s: Seq<SourceFile>, p: spec_fn(SourceFile) -> bool)
    ensures
        s.filter(p).filter(p) == s.filter(p),
    decreases s.len(),
{
    reveal(Seq::filter);
    if s.len() > 0 {
        lemma_filter_twice(s.drop_last(), p);
        if p(s.last()) {
            let t = s.drop_last().filter(p).push(s.last());
            assert(t.drop_last() =~= s.drop_last().filter(p));
        }
    }
}

/// Where no file loads, the catalog is empty.
pub proof fn lemma_none_loaded(files: Seq<SourceFile>)
    requires
        forall|i: int| 0 <= i < files.len() ==> !#[trigger] file_loads(files[i]),
    ensures
        catalog_of(files).len() == 0,
    decreases files.len(),
{
    if files.len() > 0 {
        let prev = files.drop_last();
        assert forall|i: int| 0 <= i < prev.len() implies !#[trigger] file_loads(prev[i]) by {
            assert(!file_loads(files[i]));
        }
        lemma_none_loaded(prev);
        assert(!file_loads(files[files.len() - 1]));
    }
}

/// A diagram `d` written out as the bytes of a definition file and read back
/// gives an entry titled with `d`'s title, once the schema accepts the bytes.
pub proof fn lemma_reload_keeps_title(bytes: Seq<u8>, d: Diagram)
    requires
        json_of(bytes) matches Some(j) && json_diagram(Some(j), d),
    ensures
        document_title(bytes) == d.layout.panel.title@,
        schema_accepts(bytes) ==> document_loads(bytes),
{
    lemma_title_of_encoding(json_of(bytes)->Some_0, d);
}

/// The title of a panel that loads is not empty.
pub proof fn lemma_loaded_title_not_empty(bytes: Seq<u8>)
    requires
        document_loads(bytes),
    ensures
        document_title(bytes).len() > 0,
{
    let j = json_of(bytes)->Some_0;
    let d = choose|d: Diagram| json_diagram(Some(j), d);
    lemma_title_of_encoding(j, d);
}

/// Every outcome is either a panel or a rejection.
pub proof fn lemma_outcome_counts(outcomes: Seq<Result<PanelDefinition, Rejected>>)
    ensures
        successes(outcomes).len() + failures(outcomes).len() == outcomes.len(),
    decreases outcomes.len(),
{
    if outcomes.len() > 0 {
        lemma_outcome_counts(outcomes.drop_last());
    }
}

} // verus!
