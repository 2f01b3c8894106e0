//! Grant identifiers and the check that decides whether a held set of grants
//! satisfies a required list.

use vstd::prelude::*;
use vstd::hash_set::StringHashSet;
use crate::text::str_eq;

verus! {

/// How a list of required grants is combined.
#[derive(Clone, Copy, Debug, PartialEq, Eq)]
pub enum HasGrantsMode {
    /// Every required grant must be held.
    And,
    /// At least one required grant must be held.
    Or,
}

impl Default for HasGrantsMode {
    fn default() -> (mode: Self)
        ensures
            mode == HasGrantsMode::And,
    {
        HasGrantsMode::And
    }
}

/// Whether `held` satisfies `required` under `mode`. Identifiers are compared
/// as opaque strings. An empty list is satisfied under `And` and not under
/// `Or`.
pub open spec fn grants_satisfy(
    held: Set<Seq<char>>,
    required: Seq<Seq<char>>,
    mode: HasGrantsMode,
) -> bool {
    match mode {
        HasGrantsMode::And => forall|i: int|
            0 <= i < required.len() ==> held.contains(#[trigger] required[i]),
        HasGrantsMode::Or => exists|i: int|
            0 <= i < required.len() && held.contains(#[trigger] required[i]),
    }
}

/// The identifiers of a list of strings, in order.
pub open spec fn names_of(list: Seq<String>) -> Seq<Seq<char>> {
    Seq::new(list.len(), |i: int| list[i]@)
}

/// A set of grant identifiers with constant-time membership.
pub struct GrantSet {
    names: StringHashSet,
}

impl View for GrantSet {
    type V = Set<Seq<char>>;

    closed spec fn view(&self) -> Set<Seq<char>> {
        self.names@
    }
}

impl GrantSet {
    /// The empty set.
    pub fn new() -> (set: Self)
        ensures
            set@ == Set::<Seq<char>>::empty(),
    {
        GrantSet { names: StringHashSet::new() }
    }

    /// Adds one identifier.
    pub fn insert(&mut self, name: String)
        ensures
            final(self)@ == old(self)@.insert(name@),
    {
        self.names.insert(name);
    }

    /// Whether `name` is in the set.
    pub fn contains(&self, name: &str) -> (found: bool)
        ensures
            found == self@.contains(name@),
    {
        self.names.contains(name)
    }

    /// The set of the identifiers in `names`; repeated entries count once.
    pub fn from_names(names: &Vec<String>) -> (set: Self)
        ensures
            set@ == names_of(names@).to_set(),
    {
        let mut set = GrantSet::new();
        let mut i: usize = 0;
        while i < names.len()
            invariant
                i <= names.len(),
                set@ == names_of(names@).take(i as int).to_set(),
            decreases names.len() - i,
        {
            set.insert(names[i].clone());
            proof {
                let all = names_of(names@);
                assert(all.take(i + 1) == all.take(i as int).push(all[i as int]));
                all.take(i as int).lemma_push_to_set_commute(all[i as int]);
            }
            i += 1;
        }
        proof {
            assert(names_of(names@).take(names.len() as int) == names_of(names@));
        }
        set
    }
}

/// Decides whether the grants in `held` satisfy `required` under `mode`.
pub fn satisfies(held: &GrantSet, required: &Vec<String>, mode: HasGrantsMode) -> (allowed: bool)
    ensures
        allowed == grants_satisfy(held@, names_of(required@), mode),
        mode == HasGrantsMode::And ==> (allowed <==> names_of(required@).to_set().subset_of(held@)),
        required.len() == 0 ==> allowed == (mode == HasGrantsMode::And),
{
    let ghost wanted = names_of(required@);
    let mut i: usize = 0;
    while i < required.len()
        invariant
            i <= required.len(),
            wanted == names_of(required@),
            forall|j: int| 0 <= j < i ==> held@.contains(#[trigger] wanted[j]) == (mode == HasGrantsMode::And),
        decreases required.len() - i,
    {
        let present = held.contains(required[i].as_str());
        match mode {
            HasGrantsMode::And => {
                if !present {
                    proof {
                        assert(!held@.contains(wanted[i as int]));
                        lemma_and_is_subset(held@, wanted);
                    }
                    return false;
                }
            },
            HasGrantsMode::Or => {
                if present {
                    proof {
                        assert(held@.contains(wanted[i as int]));
                    }
                    return true;
                }
            },
        }
        i += 1;
    }
    proof {
        lemma_and_is_subset(held@, wanted);
    }
    match mode {
        HasGrantsMode::And => true,
        HasGrantsMode::Or => false,
    }
}

/// Something that names one grant: a catalog entry, or a plain identifier.
pub trait GrantName {
    /// The identifier that this value stands for.
    spec fn name(&self) -> Seq<char>;

    /// The identifier as an owned string.
    fn to_name(&self) -> (text: String)
        ensures
            text@ == self.name(),
    ;
}

impl GrantName for &'static str {
    open spec fn name(&self) -> Seq<char> {
        (*self)@
    }

    fn to_name(&self) -> (text: String) {
        (*self).to_owned()
    }
}

impl GrantName for String {
    open spec fn name(&self) -> Seq<char> {
        self@
    }

    fn to_name(&self) -> (text: String) {
        self.clone()
    }
}

/// The grants that this service defines for its own operations.
#[derive(Clone, Copy, Debug, PartialEq, Eq)]
pub enum Grants {
    UserCreate,
    UserDelete,
    UserList,
    UserGet,
    UserGrantUpdate,
    ApplicationCreate,
    ApplicationGet,
    ApplicationList,
    ApplicationGetGrants,
    ApplicationUpdate,
    GrantCreate,
    GrantGet,
}

impl Grants {
    /// The dotted identifier of a grant, as it is stored and as it appears in
    /// tokens.
    pub open spec fn identifier(self) -> Seq<char> {
        match self {
            Grants::UserCreate => "dev.thmsn.auth.user.create"@,
            Grants::UserDelete => "dev.thmsn.auth.user.delete"@,
            Grants::UserList => "dev.thmsn.auth.user.list"@,
            Grants::UserGet => "dev.thmsn.auth.user.get"@,
            Grants::UserGrantUpdate => "dev.thmsn.auth.user.grant.update"@,
            Grants::ApplicationCreate => "dev.thmsn.auth.application.create"@,
            Grants::ApplicationGet => "dev.thmsn.auth.application.get"@,
            Grants::ApplicationList => "dev.thmsn.auth.application.list"@,
            Grants::ApplicationGetGrants => "dev.thmsn.auth.application.get_grants"@,
            Grants::ApplicationUpdate => "dev.thmsn.auth.application.update"@,
            Grants::GrantCreate => "dev.thmsn.auth.grant.create"@,
            Grants::GrantGet => "dev.thmsn.auth.grant.get"@,
        }
    }

    /// The dotted identifier of this grant.
    pub fn as_str(&self) -> (text: &'static str)
        ensures
            text@ == self.identifier(),
    {
        match self {
            Grants::UserCreate => "dev.thmsn.auth.user.create",
            Grants::UserDelete => "dev.thmsn.auth.user.delete",
            Grants::UserList => "dev.thmsn.auth.user.list",
            Grants::UserGet => "dev.thmsn.auth.user.get",
            Grants::UserGrantUpdate => "dev.thmsn.auth.user.grant.update",
            Grants::ApplicationCreate => "dev.thmsn.auth.application.create",
            Grants::ApplicationGet => "dev.thmsn.auth.application.get",
            Grants::ApplicationList => "dev.thmsn.auth.application.list",
            Grants::ApplicationGetGrants => "dev.thmsn.auth.application.get_grants",
            Grants::ApplicationUpdate => "dev.thmsn.auth.application.update",
            Grants::GrantCreate => "dev.thmsn.auth.grant.create",
            Grants::GrantGet => "dev.thmsn.auth.grant.get",
        }
    }

    /// The grants of the catalog, in the order of their declaration.
    pub fn all() -> (catalog: [Grants; 12])
        ensures
            forall|grant: Grants| catalog@.contains(grant),
    {
        let catalog = [
            Grants::UserCreate,
            Grants::UserDelete,
            Grants::UserList,
            Grants::UserGet,
            Grants::UserGrantUpdate,
            Grants::ApplicationCreate,
            Grants::ApplicationGet,
            Grants::ApplicationList,
            Grants::ApplicationGetGrants,
            Grants::ApplicationUpdate,
            Grants::GrantCreate,
            Grants::GrantGet,
        ];
        proof {
            assert forall|grant: Grants| catalog@.contains(grant) by {
                let at: int = match grant {
                    Grants::UserCreate => 0,
                    Grants::UserDelete => 1,
                    Grants::UserList => 2,
                    Grants::UserGet => 3,
                    Grants::UserGrantUpdate => 4,
                    Grants::ApplicationCreate => 5,
                    Grants::ApplicationGet => 6,
                    Grants::ApplicationList => 7,
                    Grants::ApplicationGetGrants => 8,
                    Grants::ApplicationUpdate => 9,
                    Grants::GrantCreate => 10,
                    Grants::GrantGet => 11,
                };
                assert(catalog@[at] == grant);
            }
        }
        catalog
    }

    /// The grant with the identifier `text`, if the catalog has one. The
    /// identifier is compared as it stands: no trimming, no folding of case.
    pub fn from_name(text: &str) -> (found: Option<Grants>)
        ensures
            found matches Some(grant) ==> grant.identifier() == text@,
            found is None ==> forall|grant: Grants| grant.identifier() != text@,
    {
        let catalog = Grants::all();
        let mut i: usize = 0;
        while i < 12
            invariant
                i <= 12,
                catalog@.len() == 12,
                forall|grant: Grants| catalog@.contains(grant),
                forall|j: int| 0 <= j < i ==> (#[trigger] catalog@[j]).identifier() != text@,
            decreases 12 - i,
        {
            if str_eq(catalog[i].as_str(), text) {
                return Some(catalog[i]);
            }
            i += 1;
        }
        proof {
            assert forall|grant: Grants| grant.identifier() != text@ by {
                assert(catalog@.contains(grant));
                let j = choose|j: int| 0 <= j < catalog@.len() && catalog@[j] == grant;
                assert(catalog@[j].identifier() != text@);
            }
        }
        None
    }
}

impl GrantName for Grants {
    open spec fn name(&self) -> Seq<char> {
        self.identifier()
    }

    fn to_name(&self) -> (text: String) {
        self.as_str().to_owned()
    }
}

/// The identifiers that a list of grant names stands for, in order.
pub open spec fn required_names<G: GrantName>(grants: Seq<G>) -> Seq<Seq<char>> {
    Seq::new(grants.len(), |i: int| grants[i].name())
}

/// A bearer of grants, checked against the grants that an operation requires.
pub trait HasGrants {
    /// How this bearer's callers name the grants they require.
    type Grants: GrantName;

    /// The identifiers held. An implementation states here what `get_grants`
    /// returns; one that states nothing claims to hold no grant.
    open spec fn held(&self) -> Set<Seq<char>> {
        Set::empty()
    }

    /// The identifiers held, as a set with constant-time membership.
    fn get_grants(&self) -> (set: GrantSet)
        ensures
            set@ == self.held(),
    ;

    /// Whether every grant in `grants` is held.
    fn has_grants(&self, grants: &[Self::Grants]) -> (allowed: bool)
        ensures
            allowed == grants_satisfy(self.held(), required_names(grants@), HasGrantsMode::And),
    {
        self.has_grants_pro(grants, HasGrantsMode::default())
    }

    /// Whether the grants held satisfy `grants` under `mode`.
    fn has_grants_pro(&self, grants: &[Self::Grants], mode: HasGrantsMode) -> (allowed: bool)
        ensures
            allowed == grants_satisfy(self.held(), required_names(grants@), mode),
    {
        let user_grants = self.get_grants();
        let mut names: Vec<String> = Vec::new();
        let mut i: usize = 0;
        while i < grants.len()
            invariant
                i <= grants.len(),
                names@.len() == i,
                forall|j: int| 0 <= j < i ==> (#[trigger] names@[j])@ == grants@[j].name(),
            decreases grants.len() - i,
        {
            names.push(grants[i].to_name());
            i += 1;
        }
        assert(names_of(names@) =~= required_names(grants@));
        satisfies(&user_grants, &names, mode)
    }
}

/// Under `And` a required list is satisfied exactly when its identifiers form
/// a subset of the held set.
pub proof fn lemma_and_is_subset(held: Set<Seq<char>>, required: Seq<Seq<char>>)
    ensures
        grants_satisfy(held, required, HasGrantsMode::And) <==> required.to_set().subset_of(held),
{
    if grants_satisfy(held, required, HasGrantsMode::And) {
        assert forall|name: Seq<char>| required.to_set().contains(name) implies held.contains(name) by {
            let i = choose|i: int| 0 <= i < required.len() && required[i] == name;
            assert(held.contains(required[i]));
        }
    }
    if required.to_set().subset_of(held) {
        assert forall|i: int| 0 <= i < required.len() implies held.contains(#[trigger] required[i]) by {
            assert(required.to_set().contains(required[i]));
        }
    }
}

/// No two grants of the catalog share an identifier.
pub proof fn lemma_identifiers_differ(first: Grants, second: Grants)
    ensures
        first.identifier() == second.identifier() ==> first == second,
{
    reveal_strlit("dev.thmsn.auth.user.create");
    reveal_strlit("dev.thmsn.auth.user.delete");
    reveal_strlit("dev.thmsn.auth.user.list");
    reveal_strlit("dev.thmsn.auth.user.get");
    reveal_strlit("dev.thmsn.auth.user.grant.update");
    reveal_strlit("dev.thmsn.auth.application.create");
    reveal_strlit("dev.thmsn.auth.application.get");
    reveal_strlit("dev.thmsn.auth.application.list");
    reveal_strlit("dev.thmsn.auth.application.get_grants");
    reveal_strlit("dev.thmsn.auth.application.update");
    reveal_strlit("dev.thmsn.auth.grant.create");
    reveal_strlit("dev.thmsn.auth.grant.get");
    let a = first.identifier();
    let b = second.identifier();
    if a == b {
        assert(a.len() == b.len());
        assert(a[20] == b[20]);
        assert(a[15] == b[15]);
        assert(a[27] == b[27]);
    }
}

/// An empty required list is satisfied under `And` and not under `Or`,
/// whatever is held.
pub proof fn lemma_empty_list(held: Set<Seq<char>>)
    ensures
        grants_satisfy(held, Seq::empty(), HasGrantsMode::And),
        !grants_satisfy(held, Seq::empty(), HasGrantsMode::Or),
{
}

/// Holding more never takes access away: what a set of grants satisfies under
/// `And`, every set that contains it satisfies too.
pub proof fn lemma_more_grants_keep_access(
    fewer: Set<Seq<char>>,
    more: Set<Seq<char>>,
    required: Seq<Seq<char>>,
)
    requires
        fewer.subset_of(more),
    ensures
        grants_satisfy(fewer, required, HasGrantsMode::And) ==> grants_satisfy(
            more,
            required,
            HasGrantsMode::And,
        ),
{
}

/// The same holds under `Or`.
pub proof fn lemma_more_grants_keep_any_access(
    fewer: Set<Seq<char>>,
    more: Set<Seq<char>>,
    required: Seq<Seq<char>>,
)
    requires
        fewer.subset_of(more),
    ensures
        grants_satisfy(fewer, required, HasGrantsMode::Or) ==> grants_satisfy(
            more,
            required,
            HasGrantsMode::Or,
        ),
{
    if grants_satisfy(fewer, required, HasGrantsMode::Or) {
        let i = choose|i: int| 0 <= i < required.len() && fewer.contains(#[trigger] required[i]);
        assert(more.contains(required[i]));
    }
}

/// An identifier that no requirement names never matters: a held set with or
/// without it satisfies the same lists.
pub proof fn lemma_unnamed_grant_is_ignored(
    held: Set<Seq<char>>,
    extra: Seq<char>,
    required: Seq<Seq<char>>,
    mode: HasGrantsMode,
)
    requires
        !required.contains(extra),
    ensures
        grants_satisfy(held.insert(extra), required, mode) == grants_satisfy(held, required, mode),
{
    assert forall|i: int| 0 <= i < required.len() implies held.insert(extra).contains(
        #[trigger] required[i],
    ) == held.contains(required[i]) by {
        assert(required.contains(required[i]));
    }
    match mode {
        HasGrantsMode::And => {},
        HasGrantsMode::Or => {
            if grants_satisfy(held.insert(extra), required, mode) {
                let i = choose|i: int|
                    0 <= i < required.len() && held.insert(extra).contains(#[trigger] required[i]);
                assert(held.contains(required[i]));
            }
            if grants_satisfy(held, required, mode) {
                let i = choose|i: int| 0 <= i < required.len() && held.contains(#[trigger] required[i]);
                assert(held.insert(extra).contains(required[i]));
            }
        },
    }
}

} // verus!
