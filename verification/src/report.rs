//! Reflection reports: a description of a type's shape that can be inspected
//! at run time, and the predicate that decides whether two reports describe
//! compatible types.

use vstd::prelude::*;
use vstd::string::*;

verus! {

/// The version in which a type's layout last changed incompatibly.
#[derive(Debug, PartialEq, Eq, Clone, Copy, Hash, Structural)]
pub struct Version {
    pub major: u16,
    pub minor: u16,
    pub patch: u16,
    /// Set when the version was built from a source tree with uncommitted changes.
    pub dirty: bool,
}

/// The decimal digit that stands for `d`, for `d < 10`.
pub open spec fn digit(d: nat) -> char {
    if d == 0 {
        '0'
    } else if d == 1 {
        '1'
    } else if d == 2 {
        '2'
    } else if d == 3 {
        '3'
    } else if d == 4 {
        '4'
    } else if d == 5 {
        '5'
    } else if d == 6 {
        '6'
    } else if d == 7 {
        '7'
    } else if d == 8 {
        '8'
    } else {
        '9'
    }
}

/// The decimal notation of `n`, without leading zeros.
pub open spec fn decimal(n: nat) -> Seq<char>
    decreases n,
{
    if n < 10 {
        seq![digit(n)]
    } else {
        decimal(n / 10).push(digit(n % 10))
    }
}

fn digit_text(d: u16) -> (r: &'static str)
    requires
        d < 10,
    ensures
        r@ == seq![digit(d as nat)],
{
    proof {
        reveal_strlit("0");
        reveal_strlit("1");
        reveal_strlit("2");
        reveal_strlit("3");
        reveal_strlit("4");
        reveal_strlit("5");
        reveal_strlit("6");
        reveal_strlit("7");
        reveal_strlit("8");
        reveal_strlit("9");
    }
    let r = if d == 0 {
        "0"
    } else if d == 1 {
        "1"
    } else if d == 2 {
        "2"
    } else if d == 3 {
        "3"
    } else if d == 4 {
        "4"
    } else if d == 5 {
        "5"
    } else if d == 6 {
        "6"
    } else if d == 7 {
        "7"
    } else if d == 8 {
        "8"
    } else {
        "9"
    };
    assert(r@ =~= seq![digit(d as nat)]);
    r
}

/// Appends the decimal notation of `n` to `out`.
fn push_decimal(out: &mut String, n: u16)
    ensures
        final(out)@ == old(out)@ + decimal(n as nat),
    decreases n,
{
    if n >= 10 {
        push_decimal(out, n / 10);
    }
    out.append(digit_text(n % 10));
    assert(final(out)@ =~= old(out)@ + decimal(n as nat));
}

impl Version {
    /// The marker of a type for which no breaking change was ever recorded.
    pub fn never() -> (r: Version)
        ensures
            r == (Version { major: 0, minor: 0, patch: 0, dirty: false }),
    {
        Version { major: 0, minor: 0, patch: 0, dirty: false }
    }

    /// The text of the version: `major.minor.patch`, after a `*` when the
    /// version is dirty.
    pub open spec fn text(self) -> Seq<char> {
        (if self.dirty {
            seq!['*']
        } else {
            Seq::<char>::empty()
        }) + decimal(self.major as nat) + seq!['.'] + decimal(self.minor as nat) + seq!['.']
            + decimal(self.patch as nat)
    }

    /// Renders the version as text.
    pub fn to_string(&self) -> (r: String)
        ensures
            r@ == self.text(),
    {
        proof {
            reveal_strlit("*");
            reveal_strlit(".");
        }
        let mut out = String::new();
        if self.dirty {
            out.append("*");
        }
        push_decimal(&mut out, self.major);
        out.append(".");
        push_decimal(&mut out, self.minor);
        out.append(".");
        push_decimal(&mut out, self.patch);
        assert(out@ =~= self.text());
        out
    }
}

/// What kind of type a report describes.
#[derive(Debug, Eq, Clone, Copy, Hash)]
pub enum TyTy {
    Struct,
    /// An enum, with the name of the type of its discriminant.
    Enum(&'static str),
    Union,
}

/// The description of a type's shape: its name, the module that declares it,
/// its fields in declaration order, the version of its last breaking change
/// and its kind.
///
/// The fields form a linked list: `fields` is the first field, and each field
/// holds the one declared after it.
#[derive(Debug, Eq, Clone, Copy, Hash)]
pub struct TypeReport {
    pub name: &'static str,
    pub module: &'static str,
    pub fields: Option<&'static FieldReport>,
    pub last_break: Version,
    pub tyty: TyTy,
}

/// One field of a type: its name, the report of its type, and the field
/// declared after it.
#[derive(Debug, Eq, Clone, Copy, Hash)]
pub struct FieldReport {
    pub name: &'static str,
    pub ty: &'static TypeReport,
    pub next_field: Option<&'static FieldReport>,
}

/// A traversal of the fields of a report, in declaration order.
pub struct Fields(pub Option<&'static FieldReport>);

/// What `Debug` prints for a string slice of the given characters: the
/// characters between double quotes, escaped where `Debug` escapes them.
pub uninterp spec fn str_debug(s: Seq<char>) -> Seq<char>;

/// Decides whether two string slices hold the same characters.
fn str_eq(a: &str, b: &str) -> (r: bool)
    ensures
        r == (a@ == b@),
{
    a.to_owned() == b.to_owned()
}

/// The `Debug` rendering of a string slice, as `format!("{:?}", s)` gives it.
/// Nothing is claimed of the text but that it depends on the characters of
/// `s` alone.
#[verifier::external_body]
fn debug_text(s: &str) -> (r: String)
    ensures
        r@ == str_debug(s@),
{
    format!("{:?}", s)
}

/// The text of an enum's kind, given the rendering of the name of its
/// discriminant: the rendering between `Enum(` and `)`.
pub fn enum_text(quoted: &str) -> (r: String)
    ensures
        r@ == seq!['E', 'n', 'u', 'm', '('] + quoted@ + seq![')'],
{
    proof {
        reveal_strlit("Enum(");
        reveal_strlit(")");
    }
    let mut out = String::from_str("Enum(");
    out.append(quoted);
    out.append(")");
    assert(out@ =~= seq!['E', 'n', 'u', 'm', '('] + quoted@ + seq![')']);
    out
}

/// The fields linked from `head`, in order.
pub open spec fn chain(head: Option<&'static FieldReport>) -> Seq<&'static FieldReport>
    decreases head,
{
    match head {
        Some(f) => seq![f] + chain(f.next_field),
        None => Seq::empty(),
    }
}

/// Whether the two lists are compatible as far as both reach: at each position
/// that both have, the fields have the same name and compatible types.
pub open spec fn links_compatible(
    a: Option<&'static FieldReport>,
    b: Option<&'static FieldReport>,
) -> bool
    decreases a, 0nat,
{
    match (a, b) {
        (Some(x), Some(y)) => {
            &&& x.name@ == y.name@
            &&& x.ty.compatible(y.ty)
            &&& links_compatible(x.next_field, y.next_field)
        },
        _ => true,
    }
}

/// Whether the two lists have the same length and equal fields at each
/// position.
pub open spec fn links_equal(
    a: Option<&'static FieldReport>,
    b: Option<&'static FieldReport>,
) -> bool
    decreases a, 0nat,
{
    match (a, b) {
        (Some(x), Some(y)) => {
            &&& x.name@ == y.name@
            &&& x.ty.equal(y.ty)
            &&& links_equal(x.next_field, y.next_field)
        },
        (None, None) => true,
        _ => false,
    }
}

/// The text of the fields linked from `head`: for each, its name, a colon and
/// a space, the text of its type, a comma and a space.
pub open spec fn links_text(head: Option<&'static FieldReport>) -> Seq<char>
    decreases head, 0nat,
{
    match head {
        Some(f) => f.name@ + seq![':', ' '] + f.ty.text() + seq![',', ' '] + links_text(
            f.next_field,
        ),
        None => Seq::empty(),
    }
}

impl TyTy {
    /// Whether the two kinds are the same, an enum's discriminant name included.
    pub open spec fn equal(self, other: TyTy) -> bool {
        match (self, other) {
            (TyTy::Struct, TyTy::Struct) => true,
            (TyTy::Enum(a), TyTy::Enum(b)) => a@ == b@,
            (TyTy::Union, TyTy::Union) => true,
            _ => false,
        }
    }

    /// The text of the kind: the variant's name, and for an enum the `Debug`
    /// rendering of its discriminant's name in parentheses.
    pub open spec fn text(self) -> Seq<char> {
        match self {
            TyTy::Struct => seq!['S', 't', 'r', 'u', 'c', 't'],
            TyTy::Enum(name) => seq!['E', 'n', 'u', 'm', '('] + str_debug(name@) + seq![')'],
            TyTy::Union => seq!['U', 'n', 'i', 'o', 'n'],
        }
    }

    /// Renders the kind as text.
    pub fn to_string(&self) -> (r: String)
        ensures
            r@ == self.text(),
    {
        proof {
            reveal_strlit("Struct");
            reveal_strlit("Union");
        }
        match self {
            TyTy::Struct => {
                let out = String::from_str("Struct");
                assert(out@ =~= self.text());
                out
            },
            TyTy::Enum(name) => {
                let quoted = debug_text(name);
                enum_text(quoted.as_str())
            },
            TyTy::Union => {
                let out = String::from_str("Union");
                assert(out@ =~= self.text());
                out
            },
        }
    }
}

impl PartialEq for TyTy {
    fn eq(&self, other: &TyTy) -> (r: bool) {
        match (self, other) {
            (TyTy::Struct, TyTy::Struct) => true,
            (TyTy::Enum(a), TyTy::Enum(b)) => str_eq(a, b),
            (TyTy::Union, TyTy::Union) => true,
            _ => false,
        }
    }
}

impl vstd::std_specs::cmp::PartialEqSpecImpl for TyTy {
    open spec fn obeys_eq_spec() -> bool {
        true
    }

    open spec fn eq_spec(&self, other: &TyTy) -> bool {
        self.equal(*other)
    }
}

impl TypeReport {
    /// The fields of the type, in declaration order.
    pub open spec fn field_seq(&self) -> Seq<&'static FieldReport> {
        chain(self.fields)
    }

    /// Whether two reports describe compatible types: the names, the modules,
    /// the versions of the last breaking change and the kinds are equal, and
    /// the fields are compatible as far as both lists reach.
    pub open spec fn compatible(&self, other: &TypeReport) -> bool
        decreases *self, 1nat,
    {
        &&& self.name@ == other.name@
        &&& self.module@ == other.module@
        &&& self.last_break == other.last_break
        &&& self.tyty.equal(other.tyty)
        &&& links_compatible(self.fields, other.fields)
    }

    /// Whether two reports are equal: the names, the modules, the versions of
    /// the last breaking change and the kinds are equal, and the types have
    /// as many fields, equal at each position.
    pub open spec fn equal(&self, other: &TypeReport) -> bool
        decreases *self, 1nat,
    {
        &&& self.name@ == other.name@
        &&& self.module@ == other.module@
        &&& self.last_break == other.last_break
        &&& self.tyty.equal(other.tyty)
        &&& links_equal(self.fields, other.fields)
    }

    /// The text of the report: kind, module, name and version, then the
    /// fields between braces.
    pub open spec fn text(&self) -> Seq<char>
        decreases *self, 1nat,
    {
        self.tyty.text() + seq![' '] + self.module@ + seq![' ', ':', ':', ' '] + self.name@
            + seq![' ', '(', 'l', 'a', 's', 't', '_', 'b', 'r', 'e', 'a', 'k']
            + self.last_break.text() + seq![')', ' ', '{'] + links_text(self.fields) + seq!['}']
    }

    /// Decides whether `self` and `other` describe compatible types. Fields
    /// are compared pairwise: where one type has more fields than the other,
    /// the fields beyond the shorter list are not looked at.
    pub fn is_compatible(&self, other: &TypeReport) -> (r: bool)
        ensures
            r == self.compatible(other),
        decreases *self,
    {
        if !(str_eq(self.name, other.name) && str_eq(self.module, other.module)
            && self.last_break == other.last_break && self.tyty == other.tyty) {
            return false;
        }
        let mut a = self.fields;
        let mut b = other.fields;
        loop
            invariant
                self.compatible(other) == links_compatible(a, b),
                a is Some ==> decreases_to!(*self => *a->0),
            decreases a,
        {
            match (a, b) {
                (Some(x), Some(y)) => {
                    if !(str_eq(x.name, y.name) && x.ty.is_compatible(y.ty)) {
                        return false;
                    }
                    a = x.next_field;
                    b = y.next_field;
                },
                _ => {
                    return true;
                },
            }
        }
    }

    /// Renders the report as text: the kind, the module, the name and the
    /// version of the last breaking change, then between braces each field
    /// with the text of its type.
    pub fn to_string(&self) -> (r: String)
        ensures
            r@ == self.text(),
        decreases *self,
    {
        proof {
            reveal_strlit(" ");
            reveal_strlit(" :: ");
            reveal_strlit(" (last_break");
            reveal_strlit(") {");
            reveal_strlit(": ");
            reveal_strlit(", ");
            reveal_strlit("}");
        }
        let mut out = self.tyty.to_string();
        out.append(" ");
        out.append(self.module);
        out.append(" :: ");
        out.append(self.name);
        out.append(" (last_break");
        let version = self.last_break.to_string();
        out.append(version.as_str());
        out.append(") {");
        let mut cur = self.fields;
        assert(out@ + links_text(cur) + seq!['}'] =~= self.text());
        loop
            invariant
                out@ + links_text(cur) + seq!['}'] =~= self.text(),
                cur is Some ==> decreases_to!(*self => *cur->0),
                seq![':', ' '] == ": "@,
                seq![',', ' '] == ", "@,
                seq!['}'] == "}"@,
            decreases cur,
        {
            match cur {
                Some(f) => {
                    let ghost before = out@;
                    out.append(f.name);
                    out.append(": ");
                    let ty = f.ty.to_string();
                    out.append(ty.as_str());
                    out.append(", ");
                    assert(out@ + links_text(f.next_field) =~= before + links_text(cur));
                    cur = f.next_field;
                },
                None => {
                    out.append("}");
                    return out;
                },
            }
        }
    }

    /// Starts a traversal of the fields at the first one. The report is left
    /// as it is, so every call gives the same traversal.
    pub fn fields(&self) -> (r: Fields)
        ensures
            r@ == self.field_seq(),
    {
        Fields(self.fields)
    }
}

/// Decides whether the two lists have the same length and equal fields at
/// each position.
fn chains_equal(a: Option<&'static FieldReport>, b: Option<&'static FieldReport>) -> (r: bool)
    ensures
        r == links_equal(a, b),
    decreases a, 0nat,
{
    match (a, b) {
        (Some(x), Some(y)) => str_eq(x.name, y.name) && reports_equal(x.ty, y.ty) && chains_equal(
            x.next_field,
            y.next_field,
        ),
        (None, None) => true,
        _ => false,
    }
}

/// Decides whether the two reports are equal.
fn reports_equal(a: &TypeReport, b: &TypeReport) -> (r: bool)
    ensures
        r == a.equal(b),
    decreases *a, 1nat,
{
    str_eq(a.name, b.name) && str_eq(a.module, b.module) && a.last_break == b.last_break && a.tyty
        == b.tyty && chains_equal(a.fields, b.fields)
}

impl PartialEq for TypeReport {
    fn eq(&self, other: &TypeReport) -> (r: bool) {
        reports_equal(self, other)
    }
}

impl vstd::std_specs::cmp::PartialEqSpecImpl for TypeReport {
    open spec fn obeys_eq_spec() -> bool {
        true
    }

    open spec fn eq_spec(&self, other: &TypeReport) -> bool {
        self.equal(other)
    }
}

impl FieldReport {
    /// Whether two fields are equal: the names and the types are equal, and
    /// so are the fields that follow.
    pub open spec fn equal(&self, other: &FieldReport) -> bool {
        &&& self.name@ == other.name@
        &&& self.ty.equal(other.ty)
        &&& links_equal(self.next_field, other.next_field)
    }
}

impl PartialEq for FieldReport {
    fn eq(&self, other: &FieldReport) -> (r: bool) {
        str_eq(self.name, other.name) && reports_equal(self.ty, other.ty) && chains_equal(
            self.next_field,
            other.next_field,
        )
    }
}

impl vstd::std_specs::cmp::PartialEqSpecImpl for FieldReport {
    open spec fn obeys_eq_spec() -> bool {
        true
    }

    open spec fn eq_spec(&self, other: &FieldReport) -> bool {
        self.equal(other)
    }
}

impl View for Fields {
    type V = Seq<&'static FieldReport>;

    /// The fields that the traversal has yet to yield, in order.
    open spec fn view(&self) -> Seq<&'static FieldReport> {
        chain(self.0)
    }
}

impl Fields {
    /// Yields the next field, or nothing once all fields were yielded.
    pub fn next(&mut self) -> (r: Option<&'static FieldReport>)
        ensures
            r == if old(self)@.len() > 0 {
                Some(old(self)@[0])
            } else {
                None
            },
            final(self)@ == if old(self)@.len() > 0 {
                old(self)@.drop_first()
            } else {
                old(self)@
            },
    {
        let field = self.0;
        match field {
            Some(f) => {
                self.0 = f.next_field;
                assert(chain(f.next_field) =~= chain(field).drop_first());
            },
            None => {},
        }
        field
    }
}

/// Every report is compatible with itself.
pub proof fn lemma_compatible_reflexive(r: &TypeReport)
    ensures
        r.compatible(r),
    decreases *r, 1nat,
{
    lemma_links_compatible_reflexive(r.fields);
}

proof fn lemma_links_compatible_reflexive(a: Option<&'static FieldReport>)
    ensures
        links_compatible(a, a),
    decreases a, 0nat,
{
    if let Some(x) = a {
        lemma_compatible_reflexive(x.ty);
        lemma_links_compatible_reflexive(x.next_field);
    }
}

/// Every report is equal to itself.
pub proof fn lemma_equal_reflexive(r: &TypeReport)
    ensures
        r.equal(r),
    decreases *r, 1nat,
{
    lemma_links_equal_reflexive(r.fields);
}

proof fn lemma_links_equal_reflexive(a: Option<&'static FieldReport>)
    ensures
        links_equal(a, a),
    decreases a, 0nat,
{
    if let Some(x) = a {
        lemma_equal_reflexive(x.ty);
        lemma_links_equal_reflexive(x.next_field);
    }
}

/// Equal reports are compatible.
pub proof fn lemma_equal_implies_compatible(a: &TypeReport, b: &TypeReport)
    requires
        a.equal(b),
    ensures
        a.compatible(b),
    decreases *a, 1nat,
{
    lemma_links_equal_implies_compatible(a.fields, b.fields);
}

proof fn lemma_links_equal_implies_compatible(
    a: Option<&'static FieldReport>,
    b: Option<&'static FieldReport>,
)
    requires
        links_equal(a, b),
    ensures
        links_compatible(a, b),
    decreases a, 0nat,
{
    if let (Some(x), Some(y)) = (a, b) {
        lemma_equal_implies_compatible(x.ty, y.ty);
        lemma_links_equal_implies_compatible(x.next_field, y.next_field);
    }
}

/// Whether the fields at position `i` of the two lists have the same name
/// and compatible types.
pub open spec fn fields_agree_at(
    a: Seq<&'static FieldReport>,
    b: Seq<&'static FieldReport>,
    i: int,
) -> bool {
    a[i].name@ == b[i].name@ && a[i].ty.compatible(b[i].ty)
}

proof fn lemma_links_compatible_by_position(
    a: Option<&'static FieldReport>,
    b: Option<&'static FieldReport>,
)
    ensures
        links_compatible(a, b) <==> forall|i: int|
            0 <= i < chain(a).len() && i < chain(b).len() ==> #[trigger] fields_agree_at(
                chain(a),
                chain(b),
                i,
            ),
    decreases a,
{
    if let (Some(x), Some(y)) = (a, b) {
        let (ta, tb) = (chain(x.next_field), chain(y.next_field));
        lemma_links_compatible_by_position(x.next_field, y.next_field);
        assert(chain(a) =~= seq![x] + ta);
        assert(chain(b) =~= seq![y] + tb);
        assert(fields_agree_at(chain(a), chain(b), 0) == (x.name@ == y.name@ && x.ty.compatible(
            y.ty,
        )));
        assert forall|i: int| 0 <= i < ta.len() && i < tb.len() implies fields_agree_at(ta, tb, i)
            == #[trigger] fields_agree_at(chain(a), chain(b), i + 1) by {}
        if links_compatible(a, b) {
            assert forall|i: int|
                0 <= i < chain(a).len() && i < chain(b).len() implies #[trigger] fields_agree_at(
                chain(a),
                chain(b),
                i,
            ) by {
                if i > 0 {
                    assert(fields_agree_at(ta, tb, i - 1));
                }
            }
        }
        if forall|i: int|
            0 <= i < chain(a).len() && i < chain(b).len() ==> #[trigger] fields_agree_at(
                chain(a),
                chain(b),
                i,
            ) {
            assert(fields_agree_at(chain(a), chain(b), 0));
            assert forall|i: int| 0 <= i < ta.len() && i < tb.len() implies #[trigger] fields_agree_at(
                ta,
                tb,
                i,
            ) by {
                assert(fields_agree_at(chain(a), chain(b), i + 1));
            }
        }
    }
}

/// Compatibility, position by position: two reports are compatible exactly
/// when their names, modules, versions and kinds are equal and, at every
/// position that both field lists have, the fields have the same name and
/// compatible types. Fields in another order are therefore told apart, and
/// fields beyond the end of the shorter list are not compared at all.
pub proof fn lemma_compatible_by_position(a: &TypeReport, b: &TypeReport)
    ensures
        a.compatible(b) <==> {
            &&& a.name@ == b.name@
            &&& a.module@ == b.module@
            &&& a.last_break == b.last_break
            &&& a.tyty.equal(b.tyty)
            &&& forall|i: int|
                0 <= i < a.field_seq().len() && i < b.field_seq().len()
                    ==> #[trigger] fields_agree_at(a.field_seq(), b.field_seq(), i)
        },
{
    lemma_links_compatible_by_position(a.fields, b.fields);
}

/// Reports whose fields differ in name at a position that both have are not
/// compatible.
pub proof fn lemma_field_names_in_order(a: &TypeReport, b: &TypeReport, i: int)
    requires
        0 <= i < a.field_seq().len(),
        i < b.field_seq().len(),
        a.field_seq()[i].name@ != b.field_seq()[i].name@,
    ensures
        !a.compatible(b),
{
    lemma_compatible_by_position(a, b);
    if a.compatible(b) {
        assert(fields_agree_at(a.field_seq(), b.field_seq(), i));
    }
}

/// Reports that differ in the version of their last breaking change, be it
/// in the dirty flag alone, are neither equal nor compatible.
pub proof fn lemma_version_gate(a: &TypeReport, b: &TypeReport)
    requires
        a.last_break != b.last_break,
    ensures
        !a.equal(b),
        !a.compatible(b),
{
}

} // verus!
