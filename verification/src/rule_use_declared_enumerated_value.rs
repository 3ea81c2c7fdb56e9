//! The rule that a variable of an enumeration starts with a value that the
//! enumeration has.
//!
//! The rule looks at each variable whose type is a named enumeration. It
//! finds the values of that enumeration, following the name through the
//! enumerations that stand for another one, and fails where the name leads
//! to no declaration, where the names lead back to one already passed, or
//! where the initial value is none of the values.
//!
//! This passes:
//!
//! ```text
//! TYPE
//!   LOGLEVEL : (CRITICAL) := CRITICAL;
//! END_TYPE
//!
//! FUNCTION_BLOCK LOGGER
//!   VAR_INPUT
//!     LEVEL : LOGLEVEL := CRITICAL;
//!   END_VAR
//! END_FUNCTION_BLOCK
//! ```
//!
//! This fails, for `CRITICAL` is no value of `LOGLEVEL`:
//!
//! ```text
//! TYPE
//!   LOGLEVEL : (INFO) := INFO;
//! END_TYPE
//!
//! FUNCTION_BLOCK LOGGER
//!   VAR_INPUT
//!     LEVEL : LOGLEVEL := CRITICAL;
//!   END_VAR
//! END_FUNCTION_BLOCK
//! ```
use vstd::prelude::*;
use crate::common::{
    DataTypeDeclarationKind, EnumeratedInitialValueAssignment, EnumeratedSpecificationKind,
    EnumerationDeclaration, Library, LibraryElement,
};
use crate::id::Id;
use crate::node::Node;
use crate::visitor::{traversed, visited, walk, Visitor};

verus! {

/// What the rule finds wrong with the initial value of a variable.
#[derive(Debug)]
pub enum EnumerationError {
    /// No enumeration with this name is declared.
    UndeclaredType(Id),
    /// Following the names that enumerations stand for came back to this
    /// name.
    RecursiveEnumeration(Id),
    /// The enumeration of the variable does not have this value.
    UndefinedValue(Id),
}

impl EnumerationError {
    /// The text of the diagnostic: what is wrong, and the name it is wrong
    /// about.
    pub open spec fn message(self) -> Seq<char> {
        match self {
            EnumerationError::UndeclaredType(name) => "Enumeration type "@ + name@
                + " is not declared"@,
            EnumerationError::RecursiveEnumeration(name) => "Recursive enumeration for type "@
                + name@,
            EnumerationError::UndefinedValue(name) => "Enumeration uses value "@ + name@
                + " which is not defined in the enumeration"@,
        }
    }

    /// The diagnostic as a string.
    pub fn to_string(&self) -> (text: String)
        ensures
            text@ == self.message(),
    {
        match self {
            EnumerationError::UndeclaredType(name) => {
                let mut text = String::from_str("Enumeration type ");
                text.append(name.value.as_str());
                text.append(" is not declared");
                text
            },
            EnumerationError::RecursiveEnumeration(name) => {
                let mut text = String::from_str("Recursive enumeration for type ");
                text.append(name.value.as_str());
                text
            },
            EnumerationError::UndefinedValue(name) => {
                let mut text = String::from_str("Enumeration uses value ");
                text.append(name.value.as_str());
                text.append(" which is not defined in the enumeration");
                text
            },
        }
    }
}

/// The enumerations that `elements` declare, in source order.
pub open spec fn declared_enumerations(elements: Seq<LibraryElement>) -> Seq<
    EnumerationDeclaration,
>
    decreases elements.len(),
{
    if elements.len() == 0 {
        Seq::empty()
    } else {
        let before = declared_enumerations(elements.drop_last());
        match elements.last() {
            LibraryElement::DataTypeDeclaration(DataTypeDeclarationKind::Enumeration(decl)) => {
                before.push(decl)
            },
            _ => before,
        }
    }
}

/// What each declared name stands for. Where a name is declared more than
/// once, the last declaration counts.
pub open spec fn definitions(decls: Seq<EnumerationDeclaration>) -> Map<
    Seq<char>,
    EnumeratedSpecificationKind,
>
    decreases decls.len(),
{
    if decls.len() == 0 {
        Map::empty()
    } else {
        definitions(decls.drop_last()).insert(decls.last().type_id@, decls.last().spec_init.spec)
    }
}

/// Passing a declared name that was not passed before leaves fewer declared
/// names that were not passed.
pub proof fn lemma_one_fewer_unseen(
    declared: Set<Seq<char>>,
    seen: Set<Seq<char>>,
    name: Seq<char>,
)
    requires
        declared.finite(),
        declared.contains(name),
        !seen.contains(name),
    ensures
        declared.difference(seen.insert(name)).len() < declared.difference(seen).len(),
{
    let unseen = declared.difference(seen);
    vstd::set_lib::lemma_set_subset_finite(declared, unseen);
    assert(unseen.contains(name));
    assert(declared.difference(seen.insert(name)) =~= unseen.remove(name));
}

/// The values of the enumeration `name`, found by following the names that
/// enumerations stand for, with `seen` the names passed on the way.
///
/// The search fails at a name that is not declared. It fails at a name that
/// was passed before: each name is followed once at most, so the search
/// ends.
pub open spec fn resolve(
    defs: Map<Seq<char>, EnumeratedSpecificationKind>,
    name: Id,
    seen: Set<Seq<char>>,
) -> Result<Seq<Id>, EnumerationError>
    decreases defs.dom().difference(seen).len(),
    when defs.dom().finite() && !seen.contains(name@)
{
    if !defs.contains_key(name@) {
        Err(EnumerationError::UndeclaredType(name))
    } else {
        match defs[name@] {
            EnumeratedSpecificationKind::Values(values) => Ok(values@),
            EnumeratedSpecificationKind::TypeName(next) => {
                if seen.insert(name@).contains(next@) {
                    Err(EnumerationError::RecursiveEnumeration(next))
                } else {
                    proof {
                        lemma_one_fewer_unseen(defs.dom(), seen, name@);
                    }
                    resolve(defs, next, seen.insert(name@))
                }
            },
        }
    }
}

/// Whether each name of `chain` but the last stands for the name after it,
/// and no name comes twice.
pub open spec fn is_alias_chain(
    defs: Map<Seq<char>, EnumeratedSpecificationKind>,
    chain: Seq<Id>,
) -> bool {
    &&& chain.len() > 0
    &&& forall|i: int|
        #![trigger chain[i]]
        0 <= i < chain.len() - 1 ==> defs.contains_key(chain[i]@) && defs[chain[i]@]
            == EnumeratedSpecificationKind::TypeName(chain[i + 1])
    &&& forall|i: int, j: int| 0 <= i < j < chain.len() ==> chain[i]@ != chain[j]@
}

/// The names of the first `k` of `chain`, as a set.
pub open spec fn passed_names(chain: Seq<Id>, k: int) -> Set<Seq<char>> {
    Set::new(|name: Seq<char>| exists|i: int| 0 <= i < k && #[trigger] chain[i]@ == name)
}

/// Resolving the first name of a chain comes to each name of the chain, with
/// the names before it passed.
pub proof fn lemma_resolve_follows_chain(
    defs: Map<Seq<char>, EnumeratedSpecificationKind>,
    chain: Seq<Id>,
    k: int,
)
    requires
        defs.dom().finite(),
        is_alias_chain(defs, chain),
        0 <= k < chain.len(),
    ensures
        !passed_names(chain, k).contains(chain[k]@),
        resolve(defs, chain[0], Set::empty()) == resolve(defs, chain[k], passed_names(chain, k)),
    decreases k,
{
    if k == 0 {
        assert(passed_names(chain, 0) =~= Set::empty());
    } else {
        lemma_resolve_follows_chain(defs, chain, k - 1);
        let before = passed_names(chain, k - 1);
        assert(chain[k - 1] == chain[k - 1]);
        assert(passed_names(chain, k) =~= before.insert(chain[k - 1]@)) by {
            assert forall|name: Seq<char>| passed_names(chain, k).contains(name)
                == before.insert(chain[k - 1]@).contains(name) by {
                if passed_names(chain, k).contains(name) {
                    let i = choose|i: int| 0 <= i < k && #[trigger] chain[i]@ == name;
                    if i < k - 1 {
                        assert(chain[i]@ == name);
                    }
                }
                if before.contains(name) {
                    let i = choose|i: int| 0 <= i < k - 1 && #[trigger] chain[i]@ == name;
                    assert(chain[i]@ == name);
                }
                if name == chain[k - 1]@ {
                    assert(chain[k - 1]@ == name);
                }
            }
        }
        if passed_names(chain, k).contains(chain[k]@) {
            let i = choose|i: int| 0 <= i < k && #[trigger] chain[i]@ == chain[k]@;
            assert(false);
        }
    }
}

/// Alias resolution: an acyclic chain of names that ends in a declaration
/// with values resolves to exactly those values, however long the chain is.
pub proof fn lemma_alias_chain_resolves(
    defs: Map<Seq<char>, EnumeratedSpecificationKind>,
    chain: Seq<Id>,
    values: Vec<Id>,
)
    requires
        defs.dom().finite(),
        is_alias_chain(defs, chain),
        defs.contains_key(chain.last()@),
        defs[chain.last()@] == EnumeratedSpecificationKind::Values(values),
    ensures
        resolve(defs, chain[0], Set::empty()) == Ok::<Seq<Id>, EnumerationError>(values@),
{
    lemma_resolve_follows_chain(defs, chain, chain.len() - 1);
}

/// Cycle detection: a chain of names whose last name stands for a name of
/// the chain fails as a recursive enumeration, and names that name.
pub proof fn lemma_alias_cycle_fails(
    defs: Map<Seq<char>, EnumeratedSpecificationKind>,
    chain: Seq<Id>,
    back: Id,
)
    requires
        defs.dom().finite(),
        is_alias_chain(defs, chain),
        defs.contains_key(chain.last()@),
        defs[chain.last()@] == EnumeratedSpecificationKind::TypeName(back),
        exists|j: int| 0 <= j < chain.len() && #[trigger] chain[j]@ == back@,
    ensures
        resolve(defs, chain[0], Set::empty()) == Err::<Seq<Id>, EnumerationError>(
            EnumerationError::RecursiveEnumeration(back),
        ),
{
    let k = chain.len() - 1;
    lemma_resolve_follows_chain(defs, chain, k);
    let j = choose|j: int| 0 <= j < chain.len() && #[trigger] chain[j]@ == back@;
    if j < k {
        assert(passed_names(chain, k).contains(chain[j]@));
    }
}

/// Undeclared type: a chain of names whose last name is not declared fails
/// as an undeclared type, and names that name. A chain of one name is the
/// case of a variable whose own type is not declared.
pub proof fn lemma_undeclared_type_fails(
    defs: Map<Seq<char>, EnumeratedSpecificationKind>,
    chain: Seq<Id>,
)
    requires
        defs.dom().finite(),
        is_alias_chain(defs, chain),
        !defs.contains_key(chain.last()@),
    ensures
        resolve(defs, chain[0], Set::empty()) == Err::<Seq<Id>, EnumerationError>(
            EnumerationError::UndeclaredType(chain.last()),
        ),
{
    lemma_resolve_follows_chain(defs, chain, chain.len() - 1);
}

/// Whether one of `values` has the characters `value`.
pub open spec fn has_value(values: Seq<Id>, value: Seq<char>) -> bool {
    exists|i: int| 0 <= i < values.len() && #[trigger] values[i]@ == value
}

/// What the rule says of one initial value: the enumeration must resolve,
/// and a value that is given must be one of its values.
pub open spec fn checked(
    defs: Map<Seq<char>, EnumeratedSpecificationKind>,
    init: EnumeratedInitialValueAssignment,
) -> Result<(), EnumerationError> {
    match resolve(defs, init.type_id, Set::empty()) {
        Err(e) => Err(e),
        Ok(values) => match init.initial_value {
            Some(value) => if has_value(values, value.value@) {
                Ok(())
            } else {
                Err(EnumerationError::UndefinedValue(value.value))
            },
            None => Ok(()),
        },
    }
}

/// What a library declares each enumeration name to stand for.
pub open spec fn declared(lib: Library) -> Map<Seq<char>, EnumeratedSpecificationKind> {
    definitions(declared_enumerations(lib.elements@))
}

/// The first thing the rule finds wrong among `nodes`, in their order, or
/// `None` where every initial value of an enumeration variable passes.
pub open spec fn first_violation(
    nodes: Seq<Node>,
    defs: Map<Seq<char>, EnumeratedSpecificationKind>,
) -> Option<EnumerationError>
    decreases nodes.len(),
{
    if nodes.len() == 0 {
        None
    } else {
        match nodes[0] {
            Node::EnumeratedTypeInitializer(init) => match checked(defs, init) {
                Err(e) => Some(e),
                Ok(_) => first_violation(nodes.drop_first(), defs),
            },
            _ => first_violation(nodes.drop_first(), defs),
        }
    }
}

/// The declarations behind the references in `decls`.
pub open spec fn pointed_to(decls: Seq<&EnumerationDeclaration>) -> Seq<EnumerationDeclaration> {
    decls.map_values(|decl: &EnumerationDeclaration| *decl)
}

/// The names behind the references in `names`, as a set.
pub open spec fn names_of(names: Seq<&Id>) -> Set<Seq<char>> {
    Set::new(|name: Seq<char>| exists|i: int| 0 <= i < names.len() && #[trigger] names[i]@ == name)
}

/// One more name behind the references is one more name in the set.
pub proof fn lemma_names_of_push(names: Seq<&Id>, name: &Id)
    ensures
        names_of(names.push(name)) == names_of(names).insert(name@),
{
    let longer = names.push(name);
    assert forall|n: Seq<char>| names_of(longer).contains(n) == names_of(names).insert(
        name@,
    ).contains(n) by {
        if names_of(longer).contains(n) {
            let i = choose|i: int| 0 <= i < longer.len() && #[trigger] longer[i]@ == n;
            if i < names.len() {
                assert(names[i]@ == n);
            }
        }
        if names_of(names).contains(n) {
            let i = choose|i: int| 0 <= i < names.len() && #[trigger] names[i]@ == n;
            assert(longer[i]@ == n);
        }
        if n == name@ {
            assert(longer[names.len() as int]@ == n);
        }
    }
    assert(names_of(longer) =~= names_of(names).insert(name@));
}

/// The names that are declared are finitely many.
pub proof fn lemma_definitions_finite(decls: Seq<EnumerationDeclaration>)
    ensures
        definitions(decls).dom().finite(),
    decreases decls.len(),
{
    if decls.len() > 0 {
        lemma_definitions_finite(decls.drop_last());
    }
}

/// A name stands for what its last declaration says.
pub proof fn lemma_definitions_last_wins(
    decls: Seq<EnumerationDeclaration>,
    i: int,
    name: Seq<char>,
)
    requires
        0 <= i < decls.len(),
        decls[i].type_id@ == name,
        forall|j: int| i < j < decls.len() ==> (#[trigger] decls[j]).type_id@ != name,
    ensures
        definitions(decls).contains_key(name),
        definitions(decls)[name] == decls[i].spec_init.spec,
    decreases decls.len(),
{
    if i < decls.len() - 1 {
        assert(decls.last() == decls[decls.len() - 1]);
        lemma_definitions_last_wins(decls.drop_last(), i, name);
    }
}

/// A name that no declaration has stands for nothing.
pub proof fn lemma_definitions_missing(decls: Seq<EnumerationDeclaration>, name: Seq<char>)
    requires
        forall|j: int| 0 <= j < decls.len() ==> (#[trigger] decls[j]).type_id@ != name,
    ensures
        !definitions(decls).contains_key(name),
    decreases decls.len(),
{
    if decls.len() > 0 {
        assert(decls.last() == decls[decls.len() - 1]);
        lemma_definitions_missing(decls.drop_last(), name);
    }
}

/// Collects the declarations of enumerations among the elements of `lib`, in
/// source order.
pub fn collect_enumerations<'a>(lib: &'a Library) -> (decls: Vec<&'a EnumerationDeclaration>)
    ensures
        pointed_to(decls@) == declared_enumerations(lib.elements@),
{
    let mut decls: Vec<&'a EnumerationDeclaration> = Vec::new();
    let mut i: usize = 0;
    assert(pointed_to(decls@) =~= Seq::empty());
    while i < lib.elements.len()
        invariant
            i <= lib.elements.len(),
            pointed_to(decls@) == declared_enumerations(lib.elements@.take(i as int)),
        decreases lib.elements.len() - i,
    {
        let ghost before = decls@;
        assert(lib.elements@.take(i + 1).drop_last() =~= lib.elements@.take(i as int));
        assert(lib.elements@.take(i + 1).last() == lib.elements@[i as int]);
        match &lib.elements[i] {
            LibraryElement::DataTypeDeclaration(DataTypeDeclarationKind::Enumeration(decl)) => {
                decls.push(decl);
                assert(pointed_to(decls@) =~= pointed_to(before).push(*decl));
            },
            _ => {},
        }
        i = i + 1;
    }
    assert(lib.elements@.take(i as int) =~= lib.elements@);
    decls
}

/// Finds the declaration that `name` stands for among `decls`: the last one
/// with that name.
fn lookup<'a>(decls: &Vec<&'a EnumerationDeclaration>, name: &Id) -> (found: Option<
    &'a EnumerationDeclaration,
>)
    ensures
        match found {
            Some(decl) => definitions(pointed_to(decls@)).contains_key(name@) && definitions(
                pointed_to(decls@),
            )[name@] == decl.spec_init.spec,
            None => !definitions(pointed_to(decls@)).contains_key(name@),
        },
{
    let mut i: usize = decls.len();
    while i > 0
        invariant
            i <= decls.len(),
            forall|j: int|
                i <= j < decls.len() ==> (#[trigger] pointed_to(decls@)[j]).type_id@ != name@,
        decreases i,
    {
        i = i - 1;
        if decls[i].type_id.value == name.value {
            proof {
                lemma_definitions_last_wins(pointed_to(decls@), i as int, name@);
            }
            return Some(decls[i]);
        }
    }
    proof {
        lemma_definitions_missing(pointed_to(decls@), name@);
    }
    None
}

/// Whether `name` is among `names`.
fn was_seen(names: &Vec<&Id>, name: &Id) -> (seen: bool)
    ensures
        seen == names_of(names@).contains(name@),
{
    let mut i: usize = 0;
    while i < names.len()
        invariant
            i <= names.len(),
            forall|j: int| 0 <= j < i ==> (#[trigger] names@[j])@ != name@,
        decreases names.len() - i,
    {
        if names[i].value == name.value {
            assert(names@[i as int]@ == name@);
            return true;
        }
        i = i + 1;
    }
    false
}

/// Whether `value` is one of `values`.
fn is_value(values: &Vec<Id>, value: &Id) -> (found: bool)
    ensures
        found == has_value(values@, value@),
{
    let mut i: usize = 0;
    while i < values.len()
        invariant
            i <= values.len(),
            forall|j: int| 0 <= j < i ==> (#[trigger] values@[j])@ != value@,
        decreases values.len() - i,
    {
        if values[i].value == value.value {
            assert(values@[i as int]@ == value@);
            return true;
        }
        i = i + 1;
    }
    false
}

/// The pass of the rule. It holds the enumerations that the library declares
/// and looks at the initial value of each variable of a named enumeration.
pub struct RuleDeclaredEnumeratedValues<'a> {
    enum_defs: &'a Vec<&'a EnumerationDeclaration>,
}

impl<'a> RuleDeclaredEnumeratedValues<'a> {
    /// What each declared name stands for.
    pub closed spec fn defs(self) -> Map<Seq<char>, EnumeratedSpecificationKind> {
        definitions(pointed_to(self.enum_defs@))
    }

    /// The pass over a tree in which `enum_defs` are the enumerations.
    pub fn new(enum_defs: &'a Vec<&'a EnumerationDeclaration>) -> (rule: Self)
        ensures
            rule.defs() == definitions(pointed_to(enum_defs@)),
    {
        RuleDeclaredEnumeratedValues { enum_defs }
    }

    /// Returns the values of the enumeration `type_id`.
    ///
    /// Where the enumeration stands for another one, follows the names
    /// until a declaration lists its values.
    ///
    /// # Errors
    ///
    /// * a name on the way is not declared
    /// * a name on the way was passed before
    pub fn find_enum_declaration_values<'b>(&self, type_id: &'b Id) -> (res: Result<
        &'b Vec<Id>,
        EnumerationError,
    >) where 'a: 'b
        ensures
            match res {
                Ok(values) => resolve(self.defs(), *type_id, Set::empty()) == Ok::<
                    Seq<Id>,
                    EnumerationError,
                >(values@),
                Err(e) => resolve(self.defs(), *type_id, Set::empty()) == Err::<
                    Seq<Id>,
                    EnumerationError,
                >(e),
            },
    {
        // The names passed so far: each is followed once, which ends the loop.
        let mut seen_names: Vec<&'b Id> = Vec::new();
        let mut name: &'b Id = type_id;
        proof {
            lemma_definitions_finite(pointed_to(self.enum_defs@));
            assert(names_of(seen_names@) =~= Set::empty());
        }
        loop
            invariant
                self.defs().dom().finite(),
                !names_of(seen_names@).contains(name@),
                resolve(self.defs(), *type_id, Set::empty()) == resolve(
                    self.defs(),
                    *name,
                    names_of(seen_names@),
                ),
            decreases self.defs().dom().difference(names_of(seen_names@)).len(),
        {
            let ghost passed = seen_names@;
            let ghost before = names_of(passed);
            match lookup(self.enum_defs, name) {
                Some(def) => {
                    seen_names.push(name);
                    proof {
                        lemma_names_of_push(passed, name);
                        lemma_one_fewer_unseen(self.defs().dom(), before, name@);
                    }
                    // The definition is the final one, or stands for another name.
                    match &def.spec_init.spec {
                        EnumeratedSpecificationKind::TypeName(next) => {
                            name = next;
                        },
                        EnumeratedSpecificationKind::Values(values) => {
                            return Ok(values);
                        },
                    }
                },
                None => {
                    return Err(EnumerationError::UndeclaredType(name.clone()));
                },
            }
            if was_seen(&seen_names, name) {
                return Err(EnumerationError::RecursiveEnumeration(name.clone()));
            }
        }
    }
}

impl<'a> Visitor<EnumerationError> for RuleDeclaredEnumeratedValues<'a> {
    type Value = ();

    fn visit_enumerated_type_initializer(self, init: &EnumeratedInitialValueAssignment) -> (out: (
        Self,
        Result<(), EnumerationError>,
    ))
        ensures
            out.0 == self,
            out.1 == checked(self.defs(), *init),
    {
        match self.find_enum_declaration_values(&init.type_id) {
            Err(e) => (self, Err(e)),
            Ok(defined_values) => {
                if let Some(value) = &init.initial_value {
                    if !is_value(defined_values, &value.value) {
                        return (self, Err(EnumerationError::UndefinedValue(value.value.clone())));
                    }
                }
                (self, Ok(()))
            },
        }
    }
}

/// The pass does not change, and a traversal fails exactly at the first
/// initial value that does not pass the rule.
proof fn lemma_rule_traversed(
    nodes: Seq<Node>,
    hands_back: bool,
    rule: RuleDeclaredEnumeratedValues,
    after: RuleDeclaredEnumeratedValues,
    res: Result<(), EnumerationError>,
)
    requires
        traversed(nodes, hands_back, rule, after, res),
    ensures
        after == rule,
        res == match first_violation(nodes, rule.defs()) {
            Some(e) => Err::<(), EnumerationError>(e),
            None => Ok(()),
        },
    decreases nodes.len(),
{
    if nodes.len() > 0 {
        let (mid, first) = choose|
            mid: RuleDeclaredEnumeratedValues,
            first: Result<(), EnumerationError>,
        | #[trigger]
            visited(nodes[0], rule, mid, first) && match first {
                Err(e) => after == mid && res == Err::<(), EnumerationError>(e),
                Ok(value) => if hands_back && nodes.len() == 1 {
                    after == mid && res == Ok::<(), EnumerationError>(value)
                } else {
                    traversed(nodes.drop_first(), hands_back, mid, after, res)
                },
            };
        if first is Ok && !(hands_back && nodes.len() == 1) {
            lemma_rule_traversed(nodes.drop_first(), hands_back, mid, after, res);
        }
    }
}

/// Checks that every variable of a named enumeration starts with a value
/// that its enumeration has.
///
/// Returns the diagnostic of the first initial value, in source order, whose
/// enumeration does not resolve or does not have the value.
pub fn apply(lib: &Library) -> (res: Result<(), String>)
    ensures
        match res {
            Ok(_) => first_violation(lib.nodes(), declared(*lib)) is None,
            Err(text) => first_violation(lib.nodes(), declared(*lib)) matches Some(e) && text@
                == e.message(),
        },
{
    // Collect the enumerations of the library, to look their names up.
    let enum_defs = collect_enumerations(lib);
    // Walk the library to find every variable of an enumeration.
    let visitor = RuleDeclaredEnumeratedValues::new(&enum_defs);
    let ghost rule = visitor;
    let (after, res) = walk(visitor, lib);
    proof {
        lemma_rule_traversed(lib.nodes(), false, rule, after, res);
    }
    match res {
        Ok(_) => Ok(()),
        Err(e) => Err(e.to_string()),
    }
}

} // verus!
