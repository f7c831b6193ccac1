use rustc_hash::FxHashSet;
use vstd::prelude::*;

verus! {

/// Declares `rustc_hash::FxHasher`, the hasher of the configuration's sets.
#[verifier::external_type_specification]
#[verifier::external_body]
pub struct ExFxHasher(rustc_hash::FxHasher);

/// Declares `std::hash::BuildHasherDefault`, which builds the sets' hashers.
#[verifier::external_type_specification]
#[verifier::external_body]
#[verifier::reject_recursive_types(H)]
pub struct ExBuildHasherDefault<H>(std::hash::BuildHasherDefault<H>);

/// The strings that a set of the configuration holds, each by its characters.
pub uninterp spec fn string_set_contents(
    set: std::collections::HashSet<String, std::hash::BuildHasherDefault<rustc_hash::FxHasher>>,
) -> Set<Seq<char>>;

/// Calls `FxHashSet::default`, which makes an empty set.
#[verifier::external_body]
pub(crate) fn string_set_new() -> (set: FxHashSet<String>)
    ensures
        string_set_contents(set) == Set::<Seq<char>>::empty(),
{
    FxHashSet::default()
}

/// Calls `HashSet::insert` with an owned copy of `name`: afterwards the set
/// holds `name` besides what it held.
#[verifier::external_body]
pub(crate) fn string_set_insert(set: &mut FxHashSet<String>, name: &str)
    ensures
        string_set_contents(*final(set)) == string_set_contents(*old(set)).insert(name@),
{
    set.insert(name.to_string());
}

/// Calls `HashSet::contains`: whether the set holds `name`.
#[verifier::external_body]
pub(crate) fn string_set_contains(set: &FxHashSet<String>, name: &str) -> (b: bool)
    ensures
        b == string_set_contents(*set).contains(name@),
{
    set.contains(name)
}

/// The options that decide how LaTeX documents are read.
pub struct SyntaxConfig {
    pub follow_package_links: bool,
    pub use_file_list: bool,
    pub math_environments: FxHashSet<String>,
    pub enum_environments: FxHashSet<String>,
    pub verbatim_environments: FxHashSet<String>,
    pub citation_commands: FxHashSet<String>,
    pub label_definition_commands: FxHashSet<String>,
    pub label_definition_prefixes: Vec<(String, String)>,
    pub label_reference_commands: FxHashSet<String>,
    pub label_reference_prefixes: Vec<(String, String)>,
    pub label_reference_range_commands: FxHashSet<String>,
}

/// The default environments typeset as math.
pub open spec fn default_math_environments() -> Set<Seq<char>> {
    Set::empty()
        .insert("align"@)
        .insert("align*"@)
        .insert("alignat"@)
        .insert("alignat*"@)
        .insert("aligned"@)
        .insert("aligned*"@)
        .insert("alignedat"@)
        .insert("alignedat*"@)
        .insert("array"@)
        .insert("array*"@)
        .insert("bmatrix"@)
        .insert("Bmatrix"@)
        .insert("bmatrix*"@)
        .insert("Bmatrix*"@)
        .insert("cases"@)
        .insert("cases*"@)
        .insert("CD"@)
        .insert("CD*"@)
        .insert("eqnarray"@)
        .insert("eqnarray*"@)
        .insert("equation"@)
        .insert("equation*"@)
        .insert("flalign"@)
        .insert("flalign*"@)
        .insert("gather"@)
        .insert("gather*"@)
        .insert("gathered"@)
        .insert("gathered*"@)
        .insert("IEEEeqnarray"@)
        .insert("IEEEeqnarray*"@)
        .insert("matrix"@)
        .insert("matrix*"@)
        .insert("multline"@)
        .insert("multline*"@)
        .insert("pmatrix"@)
        .insert("pmatrix*"@)
        .insert("smallmatrix"@)
        .insert("smallmatrix*"@)
        .insert("split"@)
        .insert("split*"@)
        .insert("subarray"@)
        .insert("subarray*"@)
        .insert("subequations"@)
        .insert("subequations*"@)
        .insert("vmatrix"@)
        .insert("Vmatrix"@)
        .insert("vmatrix*"@)
        .insert("Vmatrix*"@)
}

/// A set that holds the default environments typeset as math.
fn make_default_math_environments() -> (set: FxHashSet<String>)
    ensures
        string_set_contents(set) == default_math_environments(),
{
    let mut set = string_set_new();
    string_set_insert(&mut set, "align");
    string_set_insert(&mut set, "align*");
    string_set_insert(&mut set, "alignat");
    string_set_insert(&mut set, "alignat*");
    string_set_insert(&mut set, "aligned");
    string_set_insert(&mut set, "aligned*");
    string_set_insert(&mut set, "alignedat");
    string_set_insert(&mut set, "alignedat*");
    string_set_insert(&mut set, "array");
    string_set_insert(&mut set, "array*");
    string_set_insert(&mut set, "bmatrix");
    string_set_insert(&mut set, "Bmatrix");
    string_set_insert(&mut set, "bmatrix*");
    string_set_insert(&mut set, "Bmatrix*");
    string_set_insert(&mut set, "cases");
    string_set_insert(&mut set, "cases*");
    string_set_insert(&mut set, "CD");
    string_set_insert(&mut set, "CD*");
    string_set_insert(&mut set, "eqnarray");
    string_set_insert(&mut set, "eqnarray*");
    string_set_insert(&mut set, "equation");
    string_set_insert(&mut set, "equation*");
    string_set_insert(&mut set, "flalign");
    string_set_insert(&mut set, "flalign*");
    string_set_insert(&mut set, "gather");
    string_set_insert(&mut set, "gather*");
    string_set_insert(&mut set, "gathered");
    string_set_insert(&mut set, "gathered*");
    string_set_insert(&mut set, "IEEEeqnarray");
    string_set_insert(&mut set, "IEEEeqnarray*");
    string_set_insert(&mut set, "matrix");
    string_set_insert(&mut set, "matrix*");
    string_set_insert(&mut set, "multline");
    string_set_insert(&mut set, "multline*");
    string_set_insert(&mut set, "pmatrix");
    string_set_insert(&mut set, "pmatrix*");
    string_set_insert(&mut set, "smallmatrix");
    string_set_insert(&mut set, "smallmatrix*");
    string_set_insert(&mut set, "split");
    string_set_insert(&mut set, "split*");
    string_set_insert(&mut set, "subarray");
    string_set_insert(&mut set, "subarray*");
    string_set_insert(&mut set, "subequations");
    string_set_insert(&mut set, "subequations*");
    string_set_insert(&mut set, "vmatrix");
    string_set_insert(&mut set, "Vmatrix");
    string_set_insert(&mut set, "vmatrix*");
    string_set_insert(&mut set, "Vmatrix*");
    set
}

/// The default enumeration environments.
pub open spec fn default_enum_environments() -> Set<Seq<char>> {
    Set::empty()
        .insert("enumerate"@)
        .insert("itemize"@)
        .insert("description"@)
}

/// A set that holds the default enumeration environments.
fn make_default_enum_environments() -> (set: FxHashSet<String>)
    ensures
        string_set_contents(set) == default_enum_environments(),
{
    let mut set = string_set_new();
    string_set_insert(&mut set, "enumerate");
    string_set_insert(&mut set, "itemize");
    string_set_insert(&mut set, "description");
    set
}

/// The default environments whose content is verbatim.
pub open spec fn default_verbatim_environments() -> Set<Seq<char>> {
    Set::empty()
        .insert("pycode"@)
        .insert("minted"@)
        .insert("asy"@)
        .insert("lstlisting"@)
        .insert("verbatim"@)
}

/// A set that holds the default environments whose content is verbatim.
fn make_default_verbatim_environments() -> (set: FxHashSet<String>)
    ensures
        string_set_contents(set) == default_verbatim_environments(),
{
    let mut set = string_set_new();
    string_set_insert(&mut set, "pycode");
    string_set_insert(&mut set, "minted");
    string_set_insert(&mut set, "asy");
    string_set_insert(&mut set, "lstlisting");
    string_set_insert(&mut set, "verbatim");
    set
}

/// The default commands that cite bibliography entries.
pub open spec fn default_citation_commands() -> Set<Seq<char>> {
    Set::empty()
        .insert("cite"@)
        .insert("cite*"@)
        .insert("Cite"@)
        .insert("nocite"@)
        .insert("citet"@)
        .insert("citet*"@)
        .insert("citep"@)
        .insert("citep*"@)
        .insert("citeauthor"@)
        .insert("citeauthor*"@)
        .insert("Citeauthor"@)
        .insert("Citeauthor*"@)
        .insert("citetitle"@)
        .insert("citetitle*"@)
        .insert("citeyear"@)
        .insert("citeyear*"@)
        .insert("citedate"@)
        .insert("citedate*"@)
        .insert("citeurl"@)
        .insert("fullcite"@)
        .insert("citeyearpar"@)
        .insert("citealt"@)
        .insert("citealp"@)
        .insert("citetext"@)
        .insert("parencite"@)
        .insert("parencite*"@)
        .insert("Parencite"@)
        .insert("footcite"@)
        .insert("footfullcite"@)
        .insert("footcitetext"@)
        .insert("textcite"@)
        .insert("Textcite"@)
        .insert("smartcite"@)
        .insert("supercite"@)
        .insert("autocite"@)
        .insert("autocite*"@)
        .insert("Autocite"@)
        .insert("Autocite*"@)
        .insert("volcite"@)
        .insert("Volcite"@)
        .insert("pvolcite"@)
        .insert("Pvolcite"@)
        .insert("fvolcite"@)
        .insert("ftvolcite"@)
        .insert("svolcite"@)
        .insert("Svolcite"@)
        .insert("tvolcite"@)
        .insert("Tvolcite"@)
        .insert("avolcite"@)
        .insert("Avolcite"@)
        .insert("notecite"@)
        .insert("pnotecite"@)
        .insert("Pnotecite"@)
        .insert("fnotecite"@)
        .insert("citeA"@)
        .insert("citeA*"@)
}

/// A set that holds the default commands that cite bibliography entries.
fn make_default_citation_commands() -> (set: FxHashSet<String>)
    ensures
        string_set_contents(set) == default_citation_commands(),
{
    let mut set = string_set_new();
    string_set_insert(&mut set, "cite");
    string_set_insert(&mut set, "cite*");
    string_set_insert(&mut set, "Cite");
    string_set_insert(&mut set, "nocite");
    string_set_insert(&mut set, "citet");
    string_set_insert(&mut set, "citet*");
    string_set_insert(&mut set, "citep");
    string_set_insert(&mut set, "citep*");
    string_set_insert(&mut set, "citeauthor");
    string_set_insert(&mut set, "citeauthor*");
    string_set_insert(&mut set, "Citeauthor");
    string_set_insert(&mut set, "Citeauthor*");
    string_set_insert(&mut set, "citetitle");
    string_set_insert(&mut set, "citetitle*");
    string_set_insert(&mut set, "citeyear");
    string_set_insert(&mut set, "citeyear*");
    string_set_insert(&mut set, "citedate");
    string_set_insert(&mut set, "citedate*");
    string_set_insert(&mut set, "citeurl");
    string_set_insert(&mut set, "fullcite");
    string_set_insert(&mut set, "citeyearpar");
    string_set_insert(&mut set, "citealt");
    string_set_insert(&mut set, "citealp");
    string_set_insert(&mut set, "citetext");
    string_set_insert(&mut set, "parencite");
    string_set_insert(&mut set, "parencite*");
    string_set_insert(&mut set, "Parencite");
    string_set_insert(&mut set, "footcite");
    string_set_insert(&mut set, "footfullcite");
    string_set_insert(&mut set, "footcitetext");
    string_set_insert(&mut set, "textcite");
    string_set_insert(&mut set, "Textcite");
    string_set_insert(&mut set, "smartcite");
    string_set_insert(&mut set, "supercite");
    string_set_insert(&mut set, "autocite");
    string_set_insert(&mut set, "autocite*");
    string_set_insert(&mut set, "Autocite");
    string_set_insert(&mut set, "Autocite*");
    string_set_insert(&mut set, "volcite");
    string_set_insert(&mut set, "Volcite");
    string_set_insert(&mut set, "pvolcite");
    string_set_insert(&mut set, "Pvolcite");
    string_set_insert(&mut set, "fvolcite");
    string_set_insert(&mut set, "ftvolcite");
    string_set_insert(&mut set, "svolcite");
    string_set_insert(&mut set, "Svolcite");
    string_set_insert(&mut set, "tvolcite");
    string_set_insert(&mut set, "Tvolcite");
    string_set_insert(&mut set, "avolcite");
    string_set_insert(&mut set, "Avolcite");
    string_set_insert(&mut set, "notecite");
    string_set_insert(&mut set, "pnotecite");
    string_set_insert(&mut set, "Pnotecite");
    string_set_insert(&mut set, "fnotecite");
    string_set_insert(&mut set, "citeA");
    string_set_insert(&mut set, "citeA*");
    set
}

/// The default commands that define a label.
pub open spec fn default_label_definition_commands() -> Set<Seq<char>> {
    Set::empty()
        .insert("label"@)
        .insert("zlabel"@)
}

/// A set that holds the default commands that define a label.
fn make_default_label_definition_commands() -> (set: FxHashSet<String>)
    ensures
        string_set_contents(set) == default_label_definition_commands(),
{
    let mut set = string_set_new();
    string_set_insert(&mut set, "label");
    string_set_insert(&mut set, "zlabel");
    set
}

/// The default commands that refer to labels.
pub open spec fn default_label_reference_commands() -> Set<Seq<char>> {
    Set::empty()
        .insert("ref"@)
        .insert("vref"@)
        .insert("Vref"@)
        .insert("autoref"@)
        .insert("pageref"@)
        .insert("cref"@)
        .insert("cref*"@)
        .insert("Cref"@)
        .insert("Cref*"@)
        .insert("zcref"@)
        .insert("zcref*"@)
        .insert("zcpageref"@)
        .insert("zcpageref*"@)
        .insert("namecref"@)
        .insert("nameCref"@)
        .insert("lcnamecref"@)
        .insert("namecrefs"@)
        .insert("nameCrefs"@)
        .insert("lcnamecrefs"@)
        .insert("labelcref"@)
        .insert("labelcpageref"@)
        .insert("eqref"@)
}

/// A set that holds the default commands that refer to labels.
fn make_default_label_reference_commands() -> (set: FxHashSet<String>)
    ensures
        string_set_contents(set) == default_label_reference_commands(),
{
    let mut set = string_set_new();
    string_set_insert(&mut set, "ref");
    string_set_insert(&mut set, "vref");
    string_set_insert(&mut set, "Vref");
    string_set_insert(&mut set, "autoref");
    string_set_insert(&mut set, "pageref");
    string_set_insert(&mut set, "cref");
    string_set_insert(&mut set, "cref*");
    string_set_insert(&mut set, "Cref");
    string_set_insert(&mut set, "Cref*");
    string_set_insert(&mut set, "zcref");
    string_set_insert(&mut set, "zcref*");
    string_set_insert(&mut set, "zcpageref");
    string_set_insert(&mut set, "zcpageref*");
    string_set_insert(&mut set, "namecref");
    string_set_insert(&mut set, "nameCref");
    string_set_insert(&mut set, "lcnamecref");
    string_set_insert(&mut set, "namecrefs");
    string_set_insert(&mut set, "nameCrefs");
    string_set_insert(&mut set, "lcnamecrefs");
    string_set_insert(&mut set, "labelcref");
    string_set_insert(&mut set, "labelcpageref");
    string_set_insert(&mut set, "eqref");
    set
}

/// The default commands that refer to a range of labels.
pub open spec fn default_label_reference_range_commands() -> Set<Seq<char>> {
    Set::empty()
        .insert("crefrange"@)
        .insert("crefrange*"@)
        .insert("Crefrange"@)
        .insert("Crefrange*"@)
        .insert("vrefrange"@)
        .insert("vrefrange*"@)
        .insert("vpagerefrange"@)
        .insert("vpagerefrange*"@)
}

/// A set that holds the default commands that refer to a range of labels.
fn make_default_label_reference_range_commands() -> (set: FxHashSet<String>)
    ensures
        string_set_contents(set) == default_label_reference_range_commands(),
{
    let mut set = string_set_new();
    string_set_insert(&mut set, "crefrange");
    string_set_insert(&mut set, "crefrange*");
    string_set_insert(&mut set, "Crefrange");
    string_set_insert(&mut set, "Crefrange*");
    string_set_insert(&mut set, "vrefrange");
    string_set_insert(&mut set, "vrefrange*");
    string_set_insert(&mut set, "vpagerefrange");
    string_set_insert(&mut set, "vpagerefrange*");
    set
}

impl SyntaxConfig {
    /// Whether this configuration holds the defaults: links are not followed,
    /// file lists are not used, no prefixes are given and each set holds its
    /// default names.
    pub open spec fn is_default(&self) -> bool {
        &&& !self.follow_package_links
        &&& !self.use_file_list
        &&& self.label_definition_prefixes@.len() == 0
        &&& self.label_reference_prefixes@.len() == 0
        &&& string_set_contents(self.math_environments) == default_math_environments()
        &&& string_set_contents(self.enum_environments) == default_enum_environments()
        &&& string_set_contents(self.verbatim_environments) == default_verbatim_environments()
        &&& string_set_contents(self.citation_commands) == default_citation_commands()
        &&& string_set_contents(self.label_definition_commands) == default_label_definition_commands()
        &&& string_set_contents(self.label_reference_commands) == default_label_reference_commands()
        &&& string_set_contents(self.label_reference_range_commands) == default_label_reference_range_commands()
    }
}

impl Default for SyntaxConfig {
    fn default() -> (config: Self)
        ensures
            config.is_default(),
    {
        let math_environments = make_default_math_environments();
        let enum_environments = make_default_enum_environments();
        let verbatim_environments = make_default_verbatim_environments();
        let citation_commands = make_default_citation_commands();
        let label_definition_commands = make_default_label_definition_commands();
        let label_reference_commands = make_default_label_reference_commands();
        let label_reference_range_commands = make_default_label_reference_range_commands();
        Self {
            follow_package_links: false,
            use_file_list: false,
            math_environments,
            enum_environments,
            verbatim_environments,
            citation_commands,
            label_definition_commands,
            label_definition_prefixes: Vec::new(),
            label_reference_commands,
            label_reference_prefixes: Vec::new(),
            label_reference_range_commands,
        }
    }
}

/// The default math environments are exactly the alignments, arrays,
/// matrices, cases, equations and gathers of LaTeX, amsmath and IEEEtran
/// listed here, starred or not.
pub proof fn law_default_math_environments(c: SyntaxConfig)
    requires
        c.is_default(),
    ensures
        string_set_contents(c.math_environments) == set!["align"@, "align*"@, "alignat"@, "alignat*"@, "aligned"@, "aligned*"@, "alignedat"@, "alignedat*"@, "array"@, "array*"@, "bmatrix"@, "Bmatrix"@, "bmatrix*"@, "Bmatrix*"@, "cases"@, "cases*"@, "CD"@, "CD*"@, "eqnarray"@, "eqnarray*"@, "equation"@, "equation*"@, "flalign"@, "flalign*"@, "gather"@, "gather*"@, "gathered"@, "gathered*"@, "IEEEeqnarray"@, "IEEEeqnarray*"@, "matrix"@, "matrix*"@, "multline"@, "multline*"@, "pmatrix"@, "pmatrix*"@, "smallmatrix"@, "smallmatrix*"@, "split"@, "split*"@, "subarray"@, "subarray*"@, "subequations"@, "subequations*"@, "vmatrix"@, "Vmatrix"@, "vmatrix*"@, "Vmatrix*"@],
{
    assert(default_math_environments() =~= set!["align"@, "align*"@, "alignat"@, "alignat*"@, "aligned"@, "aligned*"@, "alignedat"@, "alignedat*"@, "array"@, "array*"@, "bmatrix"@, "Bmatrix"@, "bmatrix*"@, "Bmatrix*"@, "cases"@, "cases*"@, "CD"@, "CD*"@, "eqnarray"@, "eqnarray*"@, "equation"@, "equation*"@, "flalign"@, "flalign*"@, "gather"@, "gather*"@, "gathered"@, "gathered*"@, "IEEEeqnarray"@, "IEEEeqnarray*"@, "matrix"@, "matrix*"@, "multline"@, "multline*"@, "pmatrix"@, "pmatrix*"@, "smallmatrix"@, "smallmatrix*"@, "split"@, "split*"@, "subarray"@, "subarray*"@, "subequations"@, "subequations*"@, "vmatrix"@, "Vmatrix"@, "vmatrix*"@, "Vmatrix*"@]);
}

/// The default enumeration environments are exactly `enumerate`,
/// `itemize` and `description`.
pub proof fn law_default_enum_environments(c: SyntaxConfig)
    requires
        c.is_default(),
    ensures
        string_set_contents(c.enum_environments) == set!["enumerate"@, "itemize"@, "description"@],
{
    assert(default_enum_environments() =~= set!["enumerate"@, "itemize"@, "description"@]);
}

/// The default verbatim environments are exactly `pycode`, `minted`,
/// `asy`, `lstlisting` and `verbatim`.
pub proof fn law_default_verbatim_environments(c: SyntaxConfig)
    requires
        c.is_default(),
    ensures
        string_set_contents(c.verbatim_environments) == set!["pycode"@, "minted"@, "asy"@, "lstlisting"@, "verbatim"@],
{
    assert(default_verbatim_environments() =~= set!["pycode"@, "minted"@, "asy"@, "lstlisting"@, "verbatim"@]);
}

/// The default citation commands are exactly the citation commands of
/// LaTeX, natbib, biblatex and apacite listed here, `\citep` among them.
pub proof fn law_default_citation_commands(c: SyntaxConfig)
    requires
        c.is_default(),
    ensures
        string_set_contents(c.citation_commands) == set!["cite"@, "cite*"@, "Cite"@, "nocite"@, "citet"@, "citet*"@, "citep"@, "citep*"@, "citeauthor"@, "citeauthor*"@, "Citeauthor"@, "Citeauthor*"@, "citetitle"@, "citetitle*"@, "citeyear"@, "citeyear*"@, "citedate"@, "citedate*"@, "citeurl"@, "fullcite"@, "citeyearpar"@, "citealt"@, "citealp"@, "citetext"@, "parencite"@, "parencite*"@, "Parencite"@, "footcite"@, "footfullcite"@, "footcitetext"@, "textcite"@, "Textcite"@, "smartcite"@, "supercite"@, "autocite"@, "autocite*"@, "Autocite"@, "Autocite*"@, "volcite"@, "Volcite"@, "pvolcite"@, "Pvolcite"@, "fvolcite"@, "ftvolcite"@, "svolcite"@, "Svolcite"@, "tvolcite"@, "Tvolcite"@, "avolcite"@, "Avolcite"@, "notecite"@, "pnotecite"@, "Pnotecite"@, "fnotecite"@, "citeA"@, "citeA*"@],
{
    assert(default_citation_commands() =~= set!["cite"@, "cite*"@, "Cite"@, "nocite"@, "citet"@, "citet*"@, "citep"@, "citep*"@, "citeauthor"@, "citeauthor*"@, "Citeauthor"@, "Citeauthor*"@, "citetitle"@, "citetitle*"@, "citeyear"@, "citeyear*"@, "citedate"@, "citedate*"@, "citeurl"@, "fullcite"@, "citeyearpar"@, "citealt"@, "citealp"@, "citetext"@, "parencite"@, "parencite*"@, "Parencite"@, "footcite"@, "footfullcite"@, "footcitetext"@, "textcite"@, "Textcite"@, "smartcite"@, "supercite"@, "autocite"@, "autocite*"@, "Autocite"@, "Autocite*"@, "volcite"@, "Volcite"@, "pvolcite"@, "Pvolcite"@, "fvolcite"@, "ftvolcite"@, "svolcite"@, "Svolcite"@, "tvolcite"@, "Tvolcite"@, "avolcite"@, "Avolcite"@, "notecite"@, "pnotecite"@, "Pnotecite"@, "fnotecite"@, "citeA"@, "citeA*"@]);
}

/// The default label definition commands are exactly `\label` and
/// `\zlabel`.
pub proof fn law_default_label_definition_commands(c: SyntaxConfig)
    requires
        c.is_default(),
    ensures
        string_set_contents(c.label_definition_commands) == set!["label"@, "zlabel"@],
{
    assert(default_label_definition_commands() =~= set!["label"@, "zlabel"@]);
}

/// The default label reference commands are exactly those of LaTeX,
/// varioref, hyperref, cleveref, zref and amsmath listed here.
pub proof fn law_default_label_reference_commands(c: SyntaxConfig)
    requires
        c.is_default(),
    ensures
        string_set_contents(c.label_reference_commands) == set!["ref"@, "vref"@, "Vref"@, "autoref"@, "pageref"@, "cref"@, "cref*"@, "Cref"@, "Cref*"@, "zcref"@, "zcref*"@, "zcpageref"@, "zcpageref*"@, "namecref"@, "nameCref"@, "lcnamecref"@, "namecrefs"@, "nameCrefs"@, "lcnamecrefs"@, "labelcref"@, "labelcpageref"@, "eqref"@],
{
    assert(default_label_reference_commands() =~= set!["ref"@, "vref"@, "Vref"@, "autoref"@, "pageref"@, "cref"@, "cref*"@, "Cref"@, "Cref*"@, "zcref"@, "zcref*"@, "zcpageref"@, "zcpageref*"@, "namecref"@, "nameCref"@, "lcnamecref"@, "namecrefs"@, "nameCrefs"@, "lcnamecrefs"@, "labelcref"@, "labelcpageref"@, "eqref"@]);
}

/// The default label range commands are exactly those of cleveref and
/// varioref listed here.
pub proof fn law_default_label_reference_range_commands(c: SyntaxConfig)
    requires
        c.is_default(),
    ensures
        string_set_contents(c.label_reference_range_commands) == set!["crefrange"@, "crefrange*"@, "Crefrange"@, "Crefrange*"@, "vrefrange"@, "vrefrange*"@, "vpagerefrange"@, "vpagerefrange*"@],
{
    assert(default_label_reference_range_commands() =~= set!["crefrange"@, "crefrange*"@, "Crefrange"@, "Crefrange*"@, "vrefrange"@, "vrefrange*"@, "vpagerefrange"@, "vpagerefrange*"@]);
}

/// The default configuration follows no package links, reads no file lists
/// and has no label prefixes.
pub proof fn law_default_flags(c: SyntaxConfig)
    requires
        c.is_default(),
    ensures
        !c.follow_package_links,
        !c.use_file_list,
        c.label_definition_prefixes@.len() == 0,
        c.label_reference_prefixes@.len() == 0,
{
}

} // verus!
