//! Edge descriptors and the two fluent builders that produce them.

use vstd::prelude::*;
use vstd::string::*;
use crate::annotation::Annotation;

verus! {

// ---------------------------------------------------------------------
// Mathematical model
// ---------------------------------------------------------------------

/// Abstract value of a `DescriptorThrough`.
pub struct ThroughView {
    pub name: Seq<char>,
    pub type_: Seq<char>,
}

/// Abstract value of a `StorageKey`.
pub struct StorageKeyView {
    pub table: Seq<char>,
    pub symbols: Seq<Seq<char>>,
    pub columns: Seq<Seq<char>>,
}

/// Abstract value of a `StorageOption`: which field it overwrites, and with what.
pub enum StorageOptionView {
    Table(Seq<char>),
    Symbols(Seq<Seq<char>>),
    Columns(Seq<Seq<char>>),
}

/// Abstract value of a `Descriptor`.
pub struct DescriptorView {
    pub tag: Seq<char>,
    pub type_: Seq<char>,
    pub name: Seq<char>,
    pub field: Seq<char>,
    pub ref_name: Seq<char>,
    pub ref_: Option<Box<DescriptorView>>,
    pub through: Option<ThroughView>,
    pub unique: bool,
    pub inverse: bool,
    pub required: bool,
    pub immutable: bool,
    pub storage_key: Option<StorageKeyView>,
    pub annotations: Seq<Annotation>,
    pub comment: Seq<char>,
}

pub open spec fn strings_view(v: Seq<String>) -> Seq<Seq<char>> {
    v.map_values(|s: String| s@)
}

impl StorageKeyView {
    /// The key with no override at all.
    pub open spec fn empty() -> StorageKeyView {
        StorageKeyView { table: Seq::empty(), symbols: Seq::empty(), columns: Seq::empty() }
    }

    /// One option overwrites the one field it targets and keeps the others.
    pub open spec fn apply(self, o: StorageOptionView) -> StorageKeyView {
        match o {
            StorageOptionView::Table(t) => StorageKeyView { table: t, ..self },
            StorageOptionView::Symbols(s) => StorageKeyView { symbols: s, ..self },
            StorageOptionView::Columns(c) => StorageKeyView { columns: c, ..self },
        }
    }

    /// Options applied left to right.
    pub open spec fn apply_all(self, opts: Seq<StorageOptionView>) -> StorageKeyView
        decreases opts.len(),
    {
        if opts.len() == 0 {
            self
        } else {
            self.apply_all(opts.drop_last()).apply(opts.last())
        }
    }
}

impl DescriptorView {
    /// A freshly declared edge: only its name, target type and direction are set.
    pub open spec fn blank(name: Seq<char>, type_: Seq<char>, inverse: bool) -> DescriptorView {
        DescriptorView {
            tag: Seq::empty(),
            type_,
            name,
            field: Seq::empty(),
            ref_name: Seq::empty(),
            ref_: None,
            through: None,
            unique: false,
            inverse,
            required: false,
            immutable: false,
            storage_key: None,
            annotations: Seq::empty(),
            comment: Seq::empty(),
        }
    }

    /// The inverse edge `name` paired with the association edge `self`, which it owns.
    pub open spec fn paired_inverse(self, name: Seq<char>) -> DescriptorView {
        DescriptorView { ref_: Some(Box::new(self)), ..DescriptorView::blank(name, self.type_, true) }
    }

    pub open spec fn with_unique(self) -> DescriptorView {
        DescriptorView { unique: true, ..self }
    }

    pub open spec fn with_required(self) -> DescriptorView {
        DescriptorView { required: true, ..self }
    }

    pub open spec fn with_immutable(self) -> DescriptorView {
        DescriptorView { immutable: true, ..self }
    }

    pub open spec fn with_tag(self, tag: Seq<char>) -> DescriptorView {
        DescriptorView { tag, ..self }
    }

    pub open spec fn with_field(self, field: Seq<char>) -> DescriptorView {
        DescriptorView { field, ..self }
    }

    pub open spec fn with_ref_name(self, ref_name: Seq<char>) -> DescriptorView {
        DescriptorView { ref_name, ..self }
    }

    pub open spec fn with_comment(self, comment: Seq<char>) -> DescriptorView {
        DescriptorView { comment, ..self }
    }

    pub open spec fn with_through(self, name: Seq<char>, type_: Seq<char>) -> DescriptorView {
        DescriptorView { through: Some(ThroughView { name, type_ }), ..self }
    }

    /// Annotations are appended after those already declared.
    pub open spec fn with_annotations(self, more: Seq<Annotation>) -> DescriptorView {
        DescriptorView { annotations: self.annotations + more, ..self }
    }

    /// The options are folded into the existing key, or into an empty one.
    pub open spec fn with_storage_key(self, opts: Seq<StorageOptionView>) -> DescriptorView {
        let start = match self.storage_key {
            Some(k) => k,
            None => StorageKeyView::empty(),
        };
        DescriptorView { storage_key: Some(start.apply_all(opts)), ..self }
    }
}

// ---------------------------------------------------------------------
// Type names
// ---------------------------------------------------------------------

/// Whether a `::` separator starts at index `i` of `s`.
pub open spec fn separator_at(s: Seq<char>, i: int) -> bool {
    0 <= i && i + 1 < s.len() && s[i] == ':' && s[i + 1] == ':'
}

/// Start of the last `::` separator that ends at or before index `k`, or -1.
pub open spec fn last_separator(s: Seq<char>, k: int) -> int
    decreases k,
{
    if k < 2 {
        -1
    } else if separator_at(s, k - 2) {
        k - 2
    } else {
        last_separator(s, k - 1)
    }
}

/// The part of a `::`-separated path after its last separator.
pub open spec fn path_tail(s: Seq<char>) -> Seq<char> {
    let i = last_separator(s, s.len() as int);
    if i < 0 {
        s
    } else {
        s.subrange(i + 2, s.len() as int)
    }
}

/// Short name of an entity type: the last segment of its `::`-separated path.
pub fn typ(path: &str) -> (r: String)
    ensures
        r@ == path_tail(path@),
{
    let n = path.unicode_len();
    let mut k: usize = n;
    while k >= 2
        invariant
            n == path@.len(),
            k <= n,
            last_separator(path@, n as int) == last_separator(path@, k as int),
        decreases k,
    {
        if path.get_char(k - 2) == ':' && path.get_char(k - 1) == ':' {
            return String::from_str(path.substring_char(k, n));
        }
        k = k - 1;
    }
    String::from_str(path)
}

// ---------------------------------------------------------------------
// Descriptor and storage key
// ---------------------------------------------------------------------

/// Join entity ("edge schema") of a many-to-many edge.
#[derive(Debug)]
pub struct DescriptorThrough {
    pub name: String,
    pub type_: String,
}

impl Clone for DescriptorThrough {
    fn clone(&self) -> (r: DescriptorThrough)
        ensures
            r == *self,
    {
        DescriptorThrough { name: self.name.clone(), type_: self.type_.clone() }
    }
}

impl View for DescriptorThrough {
    type V = ThroughView;

    open spec fn view(&self) -> ThroughView {
        ThroughView { name: self.name@, type_: self.type_@ }
    }
}

/// Everything declared about one edge, as handed to the code generator.
#[derive(Debug)]
pub struct Descriptor {
    pub tag: String,
    pub type_: String,
    pub name: String,
    pub field: String,
    pub ref_name: String,
    pub ref_: Option<Box<Descriptor>>,
    pub through: Option<DescriptorThrough>,
    pub unique: bool,
    pub inverse: bool,
    pub required: bool,
    pub immutable: bool,
    pub storage_key: Option<StorageKey>,
    pub annotations: Vec<Annotation>,
    pub comment: String,
}

impl View for Descriptor {
    type V = DescriptorView;

    open spec fn view(&self) -> DescriptorView
        decreases self,
    {
        DescriptorView {
            tag: self.tag@,
            type_: self.type_@,
            name: self.name@,
            field: self.field@,
            ref_name: self.ref_name@,
            ref_: match self.ref_ {
                Some(r) => Some(Box::new((*r).view())),
                None => None,
            },
            through: match self.through {
                Some(t) => Some(t@),
                None => None,
            },
            unique: self.unique,
            inverse: self.inverse,
            required: self.required,
            immutable: self.immutable,
            storage_key: match self.storage_key {
                Some(k) => Some(k@),
                None => None,
            },
            annotations: self.annotations@,
            comment: self.comment@,
        }
    }
}

impl Clone for Descriptor {
    fn clone(&self) -> (r: Descriptor)
        ensures
            r@ == self@,
        decreases self,
    {
        let ref_ = match &self.ref_ {
            Some(d) => Some(Box::new((**d).clone())),
            None => None,
        };
        Descriptor {
            tag: self.tag.clone(),
            type_: self.type_.clone(),
            name: self.name.clone(),
            field: self.field.clone(),
            ref_name: self.ref_name.clone(),
            ref_,
            through: match &self.through {
                Some(t) => Some(t.clone()),
                None => None,
            },
            unique: self.unique,
            inverse: self.inverse,
            required: self.required,
            immutable: self.immutable,
            storage_key: match &self.storage_key {
                Some(k) => Some(k.clone()),
                None => None,
            },
            annotations: clone_annotations(&self.annotations),
            comment: self.comment.clone(),
        }
    }
}

/// Relational naming overrides: table, foreign-key columns and constraint symbols.
/// Two-element lists are ordered to-side first, then from-side.
#[derive(Debug)]
pub struct StorageKey {
    pub table: String,
    pub symbols: Vec<String>,
    pub columns: Vec<String>,
}

impl Clone for StorageKey {
    fn clone(&self) -> (r: StorageKey)
        ensures
            r@ == self@,
    {
        StorageKey {
            table: self.table.clone(),
            symbols: clone_strings(&self.symbols),
            columns: clone_strings(&self.columns),
        }
    }
}

impl View for StorageKey {
    type V = StorageKeyView;

    open spec fn view(&self) -> StorageKeyView {
        StorageKeyView {
            table: self.table@,
            symbols: strings_view(self.symbols@),
            columns: strings_view(self.columns@),
        }
    }
}

impl Default for StorageKey {
    fn default() -> (r: StorageKey)
        ensures
            r@ == StorageKeyView::empty(),
    {
        let r = StorageKey { table: String::new(), symbols: Vec::new(), columns: Vec::new() };
        assert(r@.symbols =~= Seq::<Seq<char>>::empty());
        assert(r@.columns =~= Seq::<Seq<char>>::empty());
        r
    }
}

/// One deferred change to a `StorageKey`; it overwrites exactly one field.
#[derive(Debug, Clone)]
pub enum StorageOption {
    Table(String),
    Symbols(Vec<String>),
    Columns(Vec<String>),
}

impl View for StorageOption {
    type V = StorageOptionView;

    open spec fn view(&self) -> StorageOptionView {
        match self {
            StorageOption::Table(t) => StorageOptionView::Table(t@),
            StorageOption::Symbols(s) => StorageOptionView::Symbols(strings_view(s@)),
            StorageOption::Columns(c) => StorageOptionView::Columns(strings_view(c@)),
        }
    }
}

pub open spec fn options_view(opts: Seq<StorageOption>) -> Seq<StorageOptionView> {
    opts.map_values(|o: StorageOption| o@)
}

fn clone_annotations(v: &Vec<Annotation>) -> (r: Vec<Annotation>)
    ensures
        r@ == v@,
{
    let r = v.clone();
    assert(r@ =~= v@);
    r
}

fn clone_strings(v: &Vec<String>) -> (r: Vec<String>)
    ensures
        strings_view(r@) == strings_view(v@),
{
    let r = v.clone();
    assert(r@ =~= v@);
    r
}

impl StorageOption {
    /// Overwrites the field of `key` that this option targets.
    pub fn apply(&self, key: &mut StorageKey)
        ensures
            final(key)@ == old(key)@.apply(self@),
    {
        match self {
            StorageOption::Table(t) => {
                key.table = t.clone();
            },
            StorageOption::Symbols(s) => {
                key.symbols = clone_strings(s);
            },
            StorageOption::Columns(c) => {
                key.columns = clone_strings(c);
            },
        }
    }
}

/// Sets the join-table name of a many-to-many edge.
pub fn table(name: String) -> (r: StorageOption)
    ensures
        r@ == StorageOptionView::Table(name@),
{
    StorageOption::Table(name)
}

/// Sets the single foreign-key constraint symbol of a one-to-one,
/// one-to-many or many-to-one edge.
pub fn symbol(name: String) -> (r: StorageOption)
    ensures
        r@ == StorageOptionView::Symbols(seq![name@]),
{
    let v = vec![name];
    assert(strings_view(v@) =~= seq![name@]);
    StorageOption::Symbols(v)
}

/// Sets both constraint symbols of a many-to-many edge: to-side, then from-side.
pub fn symbols(to: String, from: String) -> (r: StorageOption)
    ensures
        r@ == StorageOptionView::Symbols(seq![to@, from@]),
{
    let v = vec![to, from];
    assert(strings_view(v@) =~= seq![to@, from@]);
    StorageOption::Symbols(v)
}

/// Sets the single foreign-key column of a one-to-one, one-to-many or many-to-one edge.
pub fn column(name: String) -> (r: StorageOption)
    ensures
        r@ == StorageOptionView::Columns(seq![name@]),
{
    let v = vec![name];
    assert(strings_view(v@) =~= seq![name@]);
    StorageOption::Columns(v)
}

/// Sets both foreign-key columns of a many-to-many edge: to-side, then from-side.
pub fn columns(to: String, from: String) -> (r: StorageOption)
    ensures
        r@ == StorageOptionView::Columns(seq![to@, from@]),
{
    let v = vec![to, from];
    assert(strings_view(v@) =~= seq![to@, from@]);
    StorageOption::Columns(v)
}

/// Folds `opts`, in order, into `key` (or into an empty key).
fn fold_options(key: Option<StorageKey>, opts: &[StorageOption]) -> (r: StorageKey)
    ensures
        r@ == (match key {
            Some(k) => k@,
            None => StorageKeyView::empty(),
        }).apply_all(options_view(opts@)),
{
    let mut acc = match key {
        Some(k) => k,
        None => StorageKey::default(),
    };
    let ghost start = acc@;
    let ghost ov = options_view(opts@);
    let mut i: usize = 0;
    while i < opts.len()
        invariant
            i <= opts@.len(),
            ov == options_view(opts@),
            acc@ == start.apply_all(ov.take(i as int)),
        decreases opts@.len() - i,
    {
        opts[i].apply(&mut acc);
        assert(ov.take(i + 1).drop_last() =~= ov.take(i as int));
        i = i + 1;
    }
    assert(ov.take(opts@.len() as int) =~= ov);
    acc
}

// ---------------------------------------------------------------------
// Builders
// ---------------------------------------------------------------------

/// A descriptor with only its name, target type and direction set.
fn blank(name: String, type_: String, inverse: bool) -> (d: Descriptor)
    ensures
        d@ == DescriptorView::blank(name@, type_@, inverse),
{
    Descriptor {
        tag: String::new(),
        type_,
        name,
        field: String::new(),
        ref_name: String::new(),
        ref_: None,
        through: None,
        unique: false,
        inverse,
        required: false,
        immutable: false,
        storage_key: None,
        annotations: Vec::new(),
        comment: String::new(),
    }
}

/// Declares the association edge `name` from the owning entity to the entity
/// type `type_path` (a bare name or a `::`-separated path).
pub fn to(name: String, type_path: &str) -> (r: AssocBuilder)
    ensures
        r@ == DescriptorView::blank(name@, path_tail(type_path@), false),
{
    AssocBuilder { desc: blank(name, typ(type_path), false) }
}

/// Declares the inverse edge `name`, a back-reference to an edge of the entity
/// type `type_path`.
pub fn from(name: String, type_path: &str) -> (r: InverseBuilder)
    ensures
        r@ == DescriptorView::blank(name@, path_tail(type_path@), true),
{
    InverseBuilder { desc: blank(name, typ(type_path), true) }
}

/// Builder of an association ("to") edge.
#[derive(Debug)]
pub struct AssocBuilder {
    desc: Descriptor,
}

impl Clone for AssocBuilder {
    fn clone(&self) -> (r: AssocBuilder)
        ensures
            r@ == self@,
    {
        proof {
            use_type_invariant(self);
        }
        AssocBuilder { desc: self.desc.clone() }
    }
}

impl View for AssocBuilder {
    type V = DescriptorView;

    closed spec fn view(&self) -> DescriptorView {
        self.desc@
    }
}

impl AssocBuilder {
    /// An association builder describes an association edge, which owns no other edge.
    #[verifier::type_invariant]
    closed spec fn inv(self) -> bool {
        !self.desc.inverse && self.desc.ref_ is None
    }

    /// Turns the association edge into its paired inverse edge `name`, which owns
    /// the association's descriptor as configured so far.
    pub fn from(self, name: String) -> (r: InverseBuilder)
        ensures
            r@ == self@.paired_inverse(name@),
    {
        proof {
            use_type_invariant(&self);
        }
        let type_ = self.desc.type_.clone();
        let mut desc = blank(name, type_, true);
        desc.ref_ = Some(Box::new(self.desc));
        InverseBuilder { desc }
    }

    /// Merges `opts`, in order, into the edge's storage key; each option
    /// overwrites only the field it targets.
    pub fn storage_key(self, opts: &[StorageOption]) -> (r: AssocBuilder)
        ensures
            r@ == self@.with_storage_key(options_view(opts@)),
    {
        proof {
            use_type_invariant(&self);
        }
        let mut desc = self.desc;
        let key = desc.storage_key.take();
        desc.storage_key = Some(fold_options(key, opts));
        AssocBuilder { desc }
    }

    /// Marks this side of the relation as unique: at most one target per source.
    pub fn unique(self) -> (r: AssocBuilder)
        ensures
            r@ == self@.with_unique(),
    {
        proof {
            use_type_invariant(&self);
        }
        let mut desc = self.desc;
        desc.unique = true;
        AssocBuilder { desc }
    }

    /// Requires the edge to be set when the entity is created.
    pub fn required(self) -> (r: AssocBuilder)
        ensures
            r@ == self@.with_required(),
    {
        proof {
            use_type_invariant(&self);
        }
        let mut desc = self.desc;
        desc.required = true;
        AssocBuilder { desc }
    }

    /// Forbids updating the edge after creation.
    pub fn immutable(self) -> (r: AssocBuilder)
        ensures
            r@ == self@.with_immutable(),
    {
        proof {
            use_type_invariant(&self);
        }
        let mut desc = self.desc;
        desc.immutable = true;
        AssocBuilder { desc }
    }

    /// Sets the struct tag of the generated field; a later call overwrites it.
    pub fn struct_tag(self, s: String) -> (r: AssocBuilder)
        ensures
            r@ == self@.with_tag(s@),
    {
        proof {
            use_type_invariant(&self);
        }
        let mut desc = self.desc;
        desc.tag = s;
        AssocBuilder { desc }
    }

    /// Binds the edge to a foreign-key field of the owning entity.
    pub fn field(self, f: String) -> (r: AssocBuilder)
        ensures
            r@ == self@.with_field(f@),
    {
        proof {
            use_type_invariant(&self);
        }
        let mut desc = self.desc;
        desc.field = f;
        AssocBuilder { desc }
    }

    /// Sets the edge's documentation comment.
    pub fn comment(self, c: String) -> (r: AssocBuilder)
        ensures
            r@ == self@.with_comment(c@),
    {
        proof {
            use_type_invariant(&self);
        }
        let mut desc = self.desc;
        desc.comment = c;
        AssocBuilder { desc }
    }

    /// Declares the join entity `type_path` through which this many-to-many edge runs,
    /// under the edge name `name`.
    pub fn through(self, name: String, type_path: &str) -> (r: AssocBuilder)
        ensures
            r@ == self@.with_through(name@, path_tail(type_path@)),
    {
        proof {
            use_type_invariant(&self);
        }
        let mut desc = self.desc;
        desc.through = Some(DescriptorThrough { name, type_: typ(type_path) });
        AssocBuilder { desc }
    }

    /// Appends `annotations` after those already declared on the edge.
    pub fn annotations(self, annotations: Vec<Annotation>) -> (r: AssocBuilder)
        ensures
            r@ == self@.with_annotations(annotations@),
    {
        proof {
            use_type_invariant(&self);
        }
        let mut desc = self.desc;
        let mut more = annotations;
        desc.annotations.append(&mut more);
        AssocBuilder { desc }
    }

    /// The finished descriptor; it is never an inverse edge and owns no other edge.
    pub fn descriptor(self) -> (r: Descriptor)
        ensures
            r@ == self@,
            !r.inverse,
            r.ref_ is None,
    {
        proof {
            use_type_invariant(&self);
        }
        self.desc
    }
}

/// Builder of an inverse ("from") edge.
#[derive(Debug)]
pub struct InverseBuilder {
    desc: Descriptor,
}

impl Clone for InverseBuilder {
    fn clone(&self) -> (r: InverseBuilder)
        ensures
            r@ == self@,
    {
        proof {
            use_type_invariant(self);
        }
        InverseBuilder { desc: self.desc.clone() }
    }
}

impl View for InverseBuilder {
    type V = DescriptorView;

    closed spec fn view(&self) -> DescriptorView {
        self.desc@
    }
}

impl InverseBuilder {
    /// An inverse builder describes an inverse edge; the edge it owns, if any,
    /// is an association edge.
    #[verifier::type_invariant]
    closed spec fn inv(self) -> bool {
        &&& self.desc@.inverse
        &&& (self.desc@.ref_ matches Some(a) ==> !a.inverse && a.ref_ is None)
    }

    /// Names the association edge, on the target type, that this edge references.
    pub fn ref_(self, ref_: String) -> (r: InverseBuilder)
        ensures
            r@ == self@.with_ref_name(ref_@),
    {
        proof {
            use_type_invariant(&self);
        }
        let mut desc = self.desc;
        desc.ref_name = ref_;
        InverseBuilder { desc }
    }

    /// Marks this side of the relation as unique: at most one target per source.
    pub fn unique(self) -> (r: InverseBuilder)
        ensures
            r@ == self@.with_unique(),
    {
        proof {
            use_type_invariant(&self);
        }
        let mut desc = self.desc;
        desc.unique = true;
        InverseBuilder { desc }
    }

    /// Requires the edge to be set when the entity is created.
    pub fn required(self) -> (r: InverseBuilder)
        ensures
            r@ == self@.with_required(),
    {
        proof {
            use_type_invariant(&self);
        }
        let mut desc = self.desc;
        desc.required = true;
        InverseBuilder { desc }
    }

    /// Forbids updating the edge after creation.
    pub fn immutable(self) -> (r: InverseBuilder)
        ensures
            r@ == self@.with_immutable(),
    {
        proof {
            use_type_invariant(&self);
        }
        let mut desc = self.desc;
        desc.immutable = true;
        InverseBuilder { desc }
    }

    /// Sets the struct tag of the generated field; a later call overwrites it.
    pub fn struct_tag(self, s: String) -> (r: InverseBuilder)
        ensures
            r@ == self@.with_tag(s@),
    {
        proof {
            use_type_invariant(&self);
        }
        let mut desc = self.desc;
        desc.tag = s;
        InverseBuilder { desc }
    }

    /// Binds the edge to a foreign-key field of the owning entity.
    pub fn field(self, f: String) -> (r: InverseBuilder)
        ensures
            r@ == self@.with_field(f@),
    {
        proof {
            use_type_invariant(&self);
        }
        let mut desc = self.desc;
        desc.field = f;
        InverseBuilder { desc }
    }

    /// Sets the edge's documentation comment.
    pub fn comment(self, c: String) -> (r: InverseBuilder)
        ensures
            r@ == self@.with_comment(c@),
    {
        proof {
            use_type_invariant(&self);
        }
        let mut desc = self.desc;
        desc.comment = c;
        InverseBuilder { desc }
    }

    /// Declares the join entity `type_path` through which this many-to-many edge runs,
    /// under the edge name `name`.
    pub fn through(self, name: String, type_path: &str) -> (r: InverseBuilder)
        ensures
            r@ == self@.with_through(name@, path_tail(type_path@)),
    {
        proof {
            use_type_invariant(&self);
        }
        let mut desc = self.desc;
        desc.through = Some(DescriptorThrough { name, type_: typ(type_path) });
        InverseBuilder { desc }
    }

    /// Appends `annotations` after those already declared on the edge.
    pub fn annotations(self, annotations: Vec<Annotation>) -> (r: InverseBuilder)
        ensures
            r@ == self@.with_annotations(annotations@),
    {
        proof {
            use_type_invariant(&self);
        }
        let mut desc = self.desc;
        let mut more = annotations;
        desc.annotations.append(&mut more);
        InverseBuilder { desc }
    }

    /// The finished descriptor; it is always an inverse edge, and the edge it owns,
    /// if any, is an association edge.
    pub fn descriptor(self) -> (r: Descriptor)
        ensures
            r@ == self@,
            r.inverse,
            r@.ref_ matches Some(a) ==> !a.inverse && a.ref_ is None,
    {
        proof {
            use_type_invariant(&self);
        }
        self.desc
    }
}

// ---------------------------------------------------------------------
// Lemmas
// ---------------------------------------------------------------------

/// A name without any `::` separator is kept whole as the edge's type.
pub proof fn lemma_plain_name_kept(s: Seq<char>)
    requires
        forall|i: int| !separator_at(s, i),
    ensures
        path_tail(s) == s,
{
    lemma_no_separator_before(s, s.len() as int);
}

proof fn lemma_no_separator_before(s: Seq<char>, k: int)
    requires
        forall|i: int| !separator_at(s, i),
    ensures
        last_separator(s, k) == -1,
    decreases k,
{
    if k >= 2 {
        lemma_no_separator_before(s, k - 1);
    }
}

/// Chaining an association edge `n1` into the inverse edge `n2` gives an inverse
/// descriptor named `n2` that owns the association, which is still named `n1`.
pub proof fn lemma_paired_chain(n1: Seq<char>, type_: Seq<char>, n2: Seq<char>)
    ensures
        ({
            let d = DescriptorView::blank(n1, type_, false).paired_inverse(n2);
            &&& d.name == n2
            &&& d.inverse
            &&& d.type_ == type_
            &&& d.ref_ is Some
            &&& d.ref_->0.name == n1
            &&& !d.ref_->0.inverse
        }),
{
}

/// The uniqueness of the two sides of a paired edge are set independently:
/// marking one side unique leaves the other as it was.
pub proof fn lemma_unique_sides_independent(assoc: DescriptorView, name: Seq<char>)
    ensures
        assoc.with_unique().paired_inverse(name).ref_->0.unique,
        !assoc.with_unique().paired_inverse(name).unique,
        assoc.paired_inverse(name).with_unique().unique,
        assoc.paired_inverse(name).with_unique().ref_->0.unique == assoc.unique,
        assoc.with_unique().paired_inverse(name).with_unique().unique,
        assoc.with_unique().paired_inverse(name).with_unique().ref_->0.unique,
{
}

/// A table, a column pair and a symbol pair given to `storage_key` come back
/// exactly as given.
pub proof fn lemma_storage_key_round_trip(
    d: DescriptorView,
    table: Seq<char>,
    to_column: Seq<char>,
    from_column: Seq<char>,
    to_symbol: Seq<char>,
    from_symbol: Seq<char>,
)
    ensures
        d.with_storage_key(
            seq![
                StorageOptionView::Table(table),
                StorageOptionView::Columns(seq![to_column, from_column]),
                StorageOptionView::Symbols(seq![to_symbol, from_symbol]),
            ],
        ).storage_key == Some(
            StorageKeyView {
                table,
                symbols: seq![to_symbol, from_symbol],
                columns: seq![to_column, from_column],
            },
        ),
{
    let opts = seq![
        StorageOptionView::Table(table),
        StorageOptionView::Columns(seq![to_column, from_column]),
        StorageOptionView::Symbols(seq![to_symbol, from_symbol]),
    ];
    let start = match d.storage_key {
        Some(k) => k,
        None => StorageKeyView::empty(),
    };
    assert(opts.drop_last() =~= opts.take(2));
    assert(opts.take(2).drop_last() =~= opts.take(1));
    assert(opts.take(1).drop_last() =~= opts.take(0));
    assert(start.apply_all(opts.take(0)) == start);
    assert(start.apply_all(opts.take(1)) == start.apply(opts[0]));
    assert(start.apply_all(opts.take(2)) == start.apply(opts[0]).apply(opts[1]));
    assert(start.apply_all(opts) == start.apply(opts[0]).apply(opts[1]).apply(opts[2]));
}

/// Options applied in two batches act as the one batch of both, in order.
pub proof fn lemma_apply_all_concat(
    k: StorageKeyView,
    first: Seq<StorageOptionView>,
    second: Seq<StorageOptionView>,
)
    ensures
        k.apply_all(first).apply_all(second) == k.apply_all(first + second),
    decreases second.len(),
{
    if second.len() == 0 {
        assert(first + second =~= first);
    } else {
        lemma_apply_all_concat(k, first, second.drop_last());
        assert((first + second).drop_last() =~= first + second.drop_last());
        assert((first + second).last() == second.last());
    }
}

/// Calling `storage_key` twice merges the second batch into the key left by the first.
pub proof fn lemma_storage_key_twice(
    d: DescriptorView,
    first: Seq<StorageOptionView>,
    second: Seq<StorageOptionView>,
)
    ensures
        d.with_storage_key(first).with_storage_key(second) == d.with_storage_key(first + second),
{
    let start = match d.storage_key {
        Some(k) => k,
        None => StorageKeyView::empty(),
    };
    lemma_apply_all_concat(start, first, second);
}

/// A second struct tag replaces the first.
pub proof fn lemma_struct_tag_last_wins(d: DescriptorView, first: Seq<char>, second: Seq<char>)
    ensures
        d.with_tag(first).with_tag(second) == d.with_tag(second),
{
}

/// Two calls of `annotations` append both lists, in call order.
pub proof fn lemma_annotations_append(d: DescriptorView, first: Seq<Annotation>, second: Seq<Annotation>)
    ensures
        d.with_annotations(first).with_annotations(second).annotations
            == d.annotations + first + second,
        d.with_annotations(first).with_annotations(second).annotations.len()
            == d.annotations.len() + first.len() + second.len(),
        d.with_annotations(first).with_annotations(second) == d.with_annotations(first + second),
{
    assert(d.annotations + first + second =~= d.annotations + (first + second));
}

} // verus!
