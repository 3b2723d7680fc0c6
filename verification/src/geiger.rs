//! Unsafe-code usage statistics: counts, their five categories, and the
//! used/unused split of a package.

use crate::text::same_text;
use vstd::prelude::*;

verus! {

/// The mathematical content of a [`GeigerCount`].
pub struct CountView {
    pub safe: nat,
    pub unsafe_: nat,
}

impl CountView {
    /// Every counted item, safe or not.
    pub open spec fn total(self) -> nat {
        self.safe + self.unsafe_
    }

    /// The field-wise sum of two counts.
    pub open spec fn plus(self, other: CountView) -> CountView {
        CountView { safe: self.safe + other.safe, unsafe_: self.unsafe_ + other.unsafe_ }
    }
}

/// The mathematical content of a [`GeigerCategories`].
pub struct CategoriesView {
    pub functions: CountView,
    pub exprs: CountView,
    pub item_impls: CountView,
    pub item_traits: CountView,
    pub methods: CountView,
}

impl CategoriesView {
    /// The sum of the five categories.
    pub open spec fn total(self) -> CountView {
        self.functions.plus(self.exprs).plus(self.item_impls).plus(self.item_traits).plus(
            self.methods,
        )
    }

    /// The category-wise sum of two decompositions.
    pub open spec fn plus(self, other: CategoriesView) -> CategoriesView {
        CategoriesView {
            functions: self.functions.plus(other.functions),
            exprs: self.exprs.plus(other.exprs),
            item_impls: self.item_impls.plus(other.item_impls),
            item_traits: self.item_traits.plus(other.item_traits),
            methods: self.methods.plus(other.methods),
        }
    }
}

/// The mathematical content of a [`GeigerUnsafety`].
pub struct UnsafetyView {
    pub used: CategoriesView,
    pub unused: CategoriesView,
    pub forbids_unsafe: bool,
}

impl UnsafetyView {
    /// Used and unused code taken together.
    pub open spec fn total(self) -> CategoriesView {
        self.used.plus(self.unused)
    }
}

/// The exact fraction `numerator / denominator`; the denominator is zero
/// when nothing was counted.
#[derive(Clone, Copy, Debug, PartialEq, Eq)]
pub struct Ratio {
    pub numerator: u64,
    pub denominator: u64,
}

/// How many items of one kind are safe and how many are unsafe.
///
/// The two numbers always add up within `u64`.
#[derive(Clone, Copy, Debug, PartialEq, Eq)]
pub struct GeigerCount {
    safe: u64,
    unsafe_: u64,
}

impl View for GeigerCount {
    type V = CountView;

    closed spec fn view(&self) -> CountView {
        CountView { safe: self.safe as nat, unsafe_: self.unsafe_ as nat }
    }
}

impl DeepView for GeigerCount {
    type V = CountView;

    open spec fn deep_view(&self) -> CountView {
        self@
    }
}

impl GeigerCount {
    #[verifier::type_invariant]
    spec fn fits(self) -> bool {
        self.safe + self.unsafe_ <= u64::MAX
    }

    /// A count of `safe` safe and `unsafe_` unsafe items, or `None` when
    /// their sum does not fit in `u64`.
    pub fn new(safe: u64, unsafe_: u64) -> (res: Option<GeigerCount>)
        ensures
            res is Some <==> safe + unsafe_ <= u64::MAX,
            res matches Some(c) ==> c@ == (CountView { safe: safe as nat, unsafe_: unsafe_ as nat }),
    {
        if safe <= u64::MAX - unsafe_ {
            Some(GeigerCount { safe, unsafe_ })
        } else {
            None
        }
    }

    /// The number of safe items.
    pub fn safe(&self) -> (res: u64)
        ensures
            res == self@.safe,
    {
        self.safe
    }

    /// The number of unsafe items.
    pub fn unsafe_(&self) -> (res: u64)
        ensures
            res == self@.unsafe_,
    {
        self.unsafe_
    }

    /// Safe and unsafe items together.
    pub fn total(&self) -> (res: u64)
        ensures
            res == self@.total(),
    {
        proof {
            use_type_invariant(self);
        }
        self.safe + self.unsafe_
    }

    /// The share of unsafe items among all items, as an exact fraction.
    pub fn percentage_unsafe(&self) -> (res: Ratio)
        ensures
            res.numerator == self@.unsafe_,
            res.denominator == self@.total(),
    {
        Ratio { numerator: self.unsafe_, denominator: self.total() }
    }
}

/// The counts of one body of code, split into five kinds of item.
///
/// All ten numbers together always add up within `u64`.
#[derive(Clone, Copy, Debug, PartialEq, Eq)]
pub struct GeigerCategories {
    functions: GeigerCount,
    exprs: GeigerCount,
    item_impls: GeigerCount,
    item_traits: GeigerCount,
    methods: GeigerCount,
}

impl View for GeigerCategories {
    type V = CategoriesView;

    closed spec fn view(&self) -> CategoriesView {
        CategoriesView {
            functions: self.functions@,
            exprs: self.exprs@,
            item_impls: self.item_impls@,
            item_traits: self.item_traits@,
            methods: self.methods@,
        }
    }
}

impl DeepView for GeigerCategories {
    type V = CategoriesView;

    open spec fn deep_view(&self) -> CategoriesView {
        self@
    }
}

impl GeigerCategories {
    #[verifier::type_invariant]
    spec fn fits(self) -> bool {
        self@.total().total() <= u64::MAX
    }

    /// The decomposition with the given five counts, or `None` when all
    /// their numbers together do not fit in `u64`.
    pub fn new(
        functions: GeigerCount,
        exprs: GeigerCount,
        item_impls: GeigerCount,
        item_traits: GeigerCount,
        methods: GeigerCount,
    ) -> (res: Option<GeigerCategories>)
        ensures
            res is Some <==> (CategoriesView {
                functions: functions@,
                exprs: exprs@,
                item_impls: item_impls@,
                item_traits: item_traits@,
                methods: methods@,
            }).total().total() <= u64::MAX,
            res matches Some(c) ==> c@ == (CategoriesView {
                functions: functions@,
                exprs: exprs@,
                item_impls: item_impls@,
                item_traits: item_traits@,
                methods: methods@,
            }),
    {
        let a: u64 = functions.total();
        let b: u64 = exprs.total();
        let c: u64 = item_impls.total();
        let d: u64 = item_traits.total();
        let e: u64 = methods.total();
        let ab = match a.checked_add(b) {
            Some(x) => x,
            None => { return None; },
        };
        let abc = match ab.checked_add(c) {
            Some(x) => x,
            None => { return None; },
        };
        let abcd = match abc.checked_add(d) {
            Some(x) => x,
            None => { return None; },
        };
        match abcd.checked_add(e) {
            Some(_) => Some(GeigerCategories { functions, exprs, item_impls, item_traits, methods }),
            None => None,
        }
    }

    /// The count of functions.
    pub fn functions(&self) -> (res: GeigerCount)
        ensures
            res@ == self@.functions,
    {
        self.functions
    }

    /// The count of expressions.
    pub fn exprs(&self) -> (res: GeigerCount)
        ensures
            res@ == self@.exprs,
    {
        self.exprs
    }

    /// The count of `impl` items.
    pub fn item_impls(&self) -> (res: GeigerCount)
        ensures
            res@ == self@.item_impls,
    {
        self.item_impls
    }

    /// The count of trait items.
    pub fn item_traits(&self) -> (res: GeigerCount)
        ensures
            res@ == self@.item_traits,
    {
        self.item_traits
    }

    /// The count of methods.
    pub fn methods(&self) -> (res: GeigerCount)
        ensures
            res@ == self@.methods,
    {
        self.methods
    }

    /// The sum of the five categories: its safe number is the sum of their
    /// safe numbers, and likewise for the unsafe ones.
    pub fn total(&self) -> (res: GeigerCount)
        ensures
            res@ == self@.total(),
            res@.safe == self@.functions.safe + self@.exprs.safe + self@.item_impls.safe
                + self@.item_traits.safe + self@.methods.safe,
            res@.unsafe_ == self@.functions.unsafe_ + self@.exprs.unsafe_ + self@.item_impls.unsafe_
                + self@.item_traits.unsafe_ + self@.methods.unsafe_,
            res@.total() == self@.functions.total() + self@.exprs.total()
                + self@.item_impls.total() + self@.item_traits.total() + self@.methods.total(),
    {
        proof {
            use_type_invariant(self);
        }
        let safe: u64 = self.functions.safe + self.exprs.safe + self.item_impls.safe
            + self.item_traits.safe + self.methods.safe;
        let unsafe_: u64 = self.functions.unsafe_ + self.exprs.unsafe_ + self.item_impls.unsafe_
            + self.item_traits.unsafe_ + self.methods.unsafe_;
        GeigerCount { safe, unsafe_ }
    }
}

/// The unsafe-code usage of one package: what its build uses, what it
/// leaves unused, and whether the package forbids unsafe code.
///
/// All twenty numbers together always add up within `u64`.
#[derive(Clone, Copy, Debug, PartialEq, Eq)]
pub struct GeigerUnsafety {
    used: GeigerCategories,
    unused: GeigerCategories,
    forbids_unsafe: bool,
}

impl View for GeigerUnsafety {
    type V = UnsafetyView;

    closed spec fn view(&self) -> UnsafetyView {
        UnsafetyView {
            used: self.used@,
            unused: self.unused@,
            forbids_unsafe: self.forbids_unsafe,
        }
    }
}

impl DeepView for GeigerUnsafety {
    type V = UnsafetyView;

    open spec fn deep_view(&self) -> UnsafetyView {
        self@
    }
}

impl GeigerUnsafety {
    #[verifier::type_invariant]
    spec fn fits(self) -> bool {
        self@.total().total().total() <= u64::MAX
    }

    /// The usage record with the given parts, or `None` when all their
    /// numbers together do not fit in `u64`.
    pub fn new(used: GeigerCategories, unused: GeigerCategories, forbids_unsafe: bool) -> (res:
        Option<GeigerUnsafety>)
        ensures
            res is Some <==> used@.plus(unused@).total().total() <= u64::MAX,
            res matches Some(u) ==> u@ == (UnsafetyView {
                used: used@,
                unused: unused@,
                forbids_unsafe,
            }),
    {
        let a: u64 = used.total().total();
        let b: u64 = unused.total().total();
        match a.checked_add(b) {
            Some(_) => Some(GeigerUnsafety { used, unused, forbids_unsafe }),
            None => None,
        }
    }

    /// Whether the package forbids unsafe code.
    pub fn forbids_unsafe(&self) -> (res: bool)
        ensures
            res == self@.forbids_unsafe,
    {
        self.forbids_unsafe
    }

    /// The counts of the code that the build uses.
    pub fn used(&self) -> (res: GeigerCategories)
        ensures
            res@ == self@.used,
    {
        self.used
    }

    /// The counts of the code that the build leaves out.
    pub fn unused(&self) -> (res: GeigerCategories)
        ensures
            res@ == self@.unused,
    {
        self.unused
    }

    /// Used and unused code together, category by category.
    pub fn total(&self) -> (res: GeigerCategories)
        ensures
            res@ == self@.total(),
    {
        proof {
            use_type_invariant(self);
            use_type_invariant(&self.used);
            use_type_invariant(&self.unused);
        }
        let used = &self.used;
        let unused = &self.unused;
        GeigerCategories {
            functions: GeigerCount {
                safe: used.functions.safe + unused.functions.safe,
                unsafe_: used.functions.unsafe_ + unused.functions.unsafe_,
            },
            exprs: GeigerCount {
                safe: used.exprs.safe + unused.exprs.safe,
                unsafe_: used.exprs.unsafe_ + unused.exprs.unsafe_,
            },
            item_impls: GeigerCount {
                safe: used.item_impls.safe + unused.item_impls.safe,
                unsafe_: used.item_impls.unsafe_ + unused.item_impls.unsafe_,
            },
            item_traits: GeigerCount {
                safe: used.item_traits.safe + unused.item_traits.safe,
                unsafe_: used.item_traits.unsafe_ + unused.item_traits.unsafe_,
            },
            methods: GeigerCount {
                safe: used.methods.safe + unused.methods.safe,
                unsafe_: used.methods.unsafe_ + unused.methods.unsafe_,
            },
        }
    }
}

/// The usage record of one version of one package.
#[derive(Debug)]
pub struct GeigerEntry {
    pub name: String,
    pub version: String,
    pub unsafety: GeigerUnsafety,
}

/// The mathematical content of a [`GeigerEntry`].
pub struct GeigerEntryView {
    pub name: Seq<char>,
    pub version: Seq<char>,
    pub unsafety: UnsafetyView,
}

impl View for GeigerEntry {
    type V = GeigerEntryView;

    open spec fn view(&self) -> GeigerEntryView {
        GeigerEntryView { name: self.name@, version: self.version@, unsafety: self.unsafety@ }
    }
}

impl DeepView for GeigerEntry {
    type V = GeigerEntryView;

    open spec fn deep_view(&self) -> GeigerEntryView {
        self@
    }
}

/// The usage record that a list of entries holds for a package version: that
/// of the last entry with this name and version.
pub open spec fn usage_of(entries: Seq<GeigerEntryView>, name: Seq<char>, version: Seq<char>)
    -> Option<UnsafetyView>
    decreases entries.len(),
{
    if entries.len() == 0 {
        None
    } else if entries.last().name == name && entries.last().version == version {
        Some(entries.last().unsafety)
    } else {
        usage_of(entries.drop_last(), name, version)
    }
}

/// The unsafe-code usage of the packages of a project, ready to be looked
/// up by name and version.
#[derive(Debug)]
pub struct GeigerClient {
    entries: Vec<GeigerEntry>,
}

impl View for GeigerClient {
    type V = Seq<GeigerEntryView>;

    closed spec fn view(&self) -> Seq<GeigerEntryView> {
        self.entries.deep_view()
    }
}

impl GeigerClient {
    /// A client over the given entries.
    pub fn new(entries: Vec<GeigerEntry>) -> (res: GeigerClient)
        ensures
            res@ == entries.deep_view(),
    {
        GeigerClient { entries }
    }

    /// The usage record of a package version, if the client has one.
    pub fn unsafety(&self, name: &str, version: &str) -> (res: Option<GeigerUnsafety>)
        ensures
            res.deep_view() == usage_of(self@, name@, version@),
    {
        let mut i: usize = self.entries.len();
        assert(self@.take(i as int) =~= self@);
        while i > 0
            invariant
                i <= self.entries.len(),
                self@ == self.entries.deep_view(),
                usage_of(self@, name@, version@) == usage_of(
                    self@.take(i as int),
                    name@,
                    version@,
                ),
            decreases i,
        {
            proof {
                assert(self@.take(i as int).drop_last() =~= self@.take(i - 1));
                assert(self@.take(i as int).last() == self.entries[i - 1]@);
            }
            i -= 1;
            let entry = &self.entries[i];
            if same_text(entry.name.as_str(), name) && same_text(entry.version.as_str(), version) {
                return Some(entry.unsafety);
            }
        }
        None
    }
}

} // verus!
