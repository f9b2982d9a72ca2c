//! The grammar: a table of rules in the order of their declaration.

use vstd::prelude::*;
use indexmap::IndexMap;
use crate::rule::{GrammarRule, RuleView};

verus! {

#[verifier::external_type_specification]
#[verifier::external_body]
#[verifier::reject_recursive_types(K)]
#[verifier::reject_recursive_types(V)]
#[verifier::reject_recursive_types(S)]
pub struct ExIndexMap<K, V, S>(IndexMap<K, V, S>);

/// What a rule table holds: its keys and rules, in the order of the table.
pub uninterp spec fn rule_entries(rules: IndexMap<String, GrammarRule>) -> Seq<
    (Seq<char>, GrammarRule),
>;

/// No key occurs twice.
pub open spec fn distinct_keys(entries: Seq<(Seq<char>, GrammarRule)>) -> bool {
    forall|i: int, j: int|
        0 <= i < j < entries.len() ==> (#[trigger] entries[i]).0 != (#[trigger] entries[j]).0
}

/// Where the key stands in the entries, if it does.
pub open spec fn key_index(entries: Seq<(Seq<char>, GrammarRule)>, key: Seq<char>) -> Option<int>
    decreases entries.len(),
{
    if entries.len() == 0 {
        None
    } else if entries.last().0 == key {
        Some(entries.len() - 1)
    } else {
        key_index(entries.drop_last(), key)
    }
}

/// The entries after `key` was given `rule`: in place where the key was
/// there, else at the end.
pub open spec fn entries_insert(
    entries: Seq<(Seq<char>, GrammarRule)>,
    key: Seq<char>,
    rule: GrammarRule,
) -> Seq<(Seq<char>, GrammarRule)> {
    match key_index(entries, key) {
        Some(i) => entries.update(i, (key, rule)),
        None => entries.push((key, rule)),
    }
}

/// Calls `IndexMap::new`: the table is empty.
#[verifier::external_body]
pub(crate) fn rules_new() -> (r: IndexMap<String, GrammarRule>)
    ensures
        rule_entries(r) == Seq::<(Seq<char>, GrammarRule)>::empty(),
{
    IndexMap::new()
}

/// Calls `IndexMap::len`: the number of entries.
#[verifier::external_body]
pub(crate) fn rules_len(rules: &IndexMap<String, GrammarRule>) -> (r: usize)
    ensures
        r == rule_entries(*rules).len(),
{
    rules.len()
}

/// Calls `IndexMap::get_index`: the entry at this place in the order of
/// the table, and nothing from the length on. The key of an entry is the
/// key of no other entry: a table holds every key once.
#[verifier::external_body]
pub(crate) fn rules_get_index(rules: &IndexMap<String, GrammarRule>, index: usize) -> (r: Option<
    (&String, &GrammarRule),
>)
    ensures
        match r {
            Some((k, v)) => index < rule_entries(*rules).len() && k@ == rule_entries(
                *rules,
            )[index as int].0 && *v == rule_entries(*rules)[index as int].1 && forall|j: int|
                0 <= j < rule_entries(*rules).len() && j != index ==> (#[trigger] rule_entries(
                    *rules,
                )[j]).0 != k@,
            None => index >= rule_entries(*rules).len(),
        },
{
    rules.get_index(index)
}

/// Calls `IndexMap::get`: the rule stored under the key, if the table
/// holds the key.
#[verifier::external_body]
pub(crate) fn rules_get<'a>(rules: &'a IndexMap<String, GrammarRule>, key: &str) -> (r: Option<
    &'a GrammarRule,
>)
    ensures
        match r {
            Some(v) => key_index(rule_entries(*rules), key@) is Some && *v == rule_entries(
                *rules,
            )[key_index(rule_entries(*rules), key@).unwrap()].1,
            None => key_index(rule_entries(*rules), key@) is None,
        },
{
    rules.get(key)
}

/// Calls `IndexMap::get_index_of`: the place of the key in the order of
/// the table, if the table holds the key.
#[verifier::external_body]
pub(crate) fn rules_index_of(rules: &IndexMap<String, GrammarRule>, key: &str) -> (r: Option<usize>)
    ensures
        match r {
            Some(i) => key_index(rule_entries(*rules), key@) == Some(i as int),
            None => key_index(rule_entries(*rules), key@) is None,
        },
{
    rules.get_index_of(key)
}

/// Calls `IndexMap::insert`: a key that the table holds keeps its place
/// and gets the new rule, and the old rule is handed back; a new key goes
/// to the end, and nothing is handed back.
#[verifier::external_body]
pub(crate) fn rules_insert(
    rules: &mut IndexMap<String, GrammarRule>,
    key: String,
    rule: GrammarRule,
) -> (r: Option<GrammarRule>)
    ensures
        rule_entries(*final(rules)) == entries_insert(rule_entries(*old(rules)), key@, rule),
        match key_index(rule_entries(*old(rules)), key@) {
            Some(i) => r == Some(rule_entries(*old(rules))[i].1),
            None => r is None,
        },
{
    rules.insert(key, rule)
}

/// The models of the entries of a rule table, one by one.
pub open spec fn entries_view(entries: Seq<(Seq<char>, GrammarRule)>) -> Seq<(Seq<char>, RuleView)> {
    Seq::new(entries.len(), |i: int| (entries[i].0, entries[i].1@))
}

/// The views of a list of texts, one by one.
pub open spec fn strings_view(items: Seq<String>) -> Seq<Seq<char>> {
    Seq::new(items.len(), |i: int| items[i]@)
}

/// The view of a text that may be missing.
pub open spec fn string_view(text: Option<String>) -> Option<Seq<char>> {
    match text {
        Some(t) => Some(t@),
        None => None,
    }
}

/// A copy of a list of texts.
pub fn clone_strings(items: &Vec<String>) -> (r: Vec<String>)
    ensures
        strings_view(r@) == strings_view(items@),
{
    let mut out: Vec<String> = Vec::new();
    let mut i: usize = 0;
    while i < items.len()
        invariant
            i <= items.len(),
            out@.len() == i,
            forall|j: int| 0 <= j < i ==> out@[j]@ == items@[j]@,
        decreases items.len() - i,
    {
        out.push(items[i].clone());
        i = i + 1;
    }
    proof {
        assert(strings_view(out@) =~= strings_view(items@));
    }
    out
}

/// The whole compiled grammar unit.
pub struct GrammarInfo {
    /// Where the grammar was read from.
    pub url: Option<String>,
    pub name: String,
    pub extensions: Vec<String>,
    /// The grammars that this one imports, by their addresses.
    pub imports: Vec<String>,
    pub exports: Vec<String>,
    /// The names of the rules that are skipped between tokens.
    pub ignores: Vec<String>,
    /// The rules by name, in the order of their declaration.
    pub rules: IndexMap<String, GrammarRule>,
    pub range_type: String,
}

/// The model of a [`GrammarInfo`].
pub struct GrammarView {
    pub url: Option<Seq<char>>,
    pub name: Seq<char>,
    pub extensions: Seq<Seq<char>>,
    pub imports: Seq<Seq<char>>,
    pub exports: Seq<Seq<char>>,
    pub ignores: Seq<Seq<char>>,
    pub rules: Seq<(Seq<char>, RuleView)>,
    pub range_type: Seq<char>,
}

impl View for GrammarInfo {
    type V = GrammarView;

    open spec fn view(&self) -> GrammarView {
        GrammarView {
            url: string_view(self.url),
            name: self.name@,
            extensions: strings_view(self.extensions@),
            imports: strings_view(self.imports@),
            exports: strings_view(self.exports@),
            ignores: strings_view(self.ignores@),
            rules: entries_view(rule_entries(self.rules)),
            range_type: self.range_type@,
        }
    }
}

impl GrammarView {
    /// The same grammar around other rules.
    pub open spec fn with_rules(self, rules: Seq<(Seq<char>, RuleView)>) -> GrammarView {
        GrammarView { rules, ..self }
    }

    /// Where the rule of this name stands, if the grammar declares it.
    pub open spec fn rule_index(self, name: Seq<char>) -> Option<int> {
        rule_position(self.rules, name)
    }

    /// Whether the grammar declares a rule of this name.
    pub open spec fn declares(self, name: Seq<char>) -> bool {
        rule_position(self.rules, name) is Some
    }

    /// No name is ignored twice.
    pub open spec fn ignores_distinct(self) -> bool {
        forall|i: int, j: int|
            0 <= i < j < self.ignores.len() ==> #[trigger] self.ignores[i] != #[trigger] self.ignores[j]
    }

    /// No name is declared twice.
    pub open spec fn distinct(self) -> bool {
        forall|i: int, j: int|
            0 <= i < j < self.rules.len() ==> (#[trigger] self.rules[i]).0 != (
            #[trigger] self.rules[j]).0
    }
}

/// The grammar without a name and without rules, whose positions are
/// `usize`.
pub open spec fn empty_grammar() -> GrammarView {
    GrammarView {
        url: None,
        name: Seq::empty(),
        extensions: Seq::empty(),
        imports: Seq::empty(),
        exports: Seq::empty(),
        ignores: Seq::empty(),
        rules: Seq::empty(),
        range_type: "usize"@,
    }
}

/// Where the name stands among the rules, if it does.
pub open spec fn rule_position(rules: Seq<(Seq<char>, RuleView)>, name: Seq<char>) -> Option<int>
    decreases rules.len(),
{
    if rules.len() == 0 {
        None
    } else if rules.last().0 == name {
        Some(rules.len() - 1)
    } else {
        rule_position(rules.drop_last(), name)
    }
}

/// The place of a key in a rule table is its place among the models.
pub proof fn lemma_key_index_view(entries: Seq<(Seq<char>, GrammarRule)>, key: Seq<char>)
    ensures
        rule_position(entries_view(entries), key) == key_index(entries, key),
        match key_index(entries, key) {
            Some(i) => 0 <= i < entries.len() && entries[i].0 == key,
            None => forall|j: int| 0 <= j < entries.len() ==> (#[trigger] entries[j]).0 != key,
        },
    decreases entries.len(),
{
    if entries.len() > 0 {
        assert(entries_view(entries).drop_last() =~= entries_view(entries.drop_last()));
        lemma_key_index_view(entries.drop_last(), key);
        if entries.last().0 != key {
            assert forall|j: int| 0 <= j < entries.len() implies (#[trigger] entries[j]).0 != key
                || key_index(entries, key) is Some by {
                if j < entries.len() - 1 {
                    assert(entries.drop_last()[j] == entries[j]);
                }
            }
        }
    }
}

impl GrammarInfo {
    /// A grammar without a name and without rules, whose positions are
    /// `usize`.
    pub fn new() -> (r: GrammarInfo)
        ensures
            r@ == empty_grammar(),
    {
        let out = GrammarInfo {
            url: None,
            name: String::new(),
            extensions: Vec::new(),
            imports: Vec::new(),
            exports: Vec::new(),
            ignores: Vec::new(),
            rules: rules_new(),
            range_type: "usize".to_owned(),
        };
        proof {
            assert(out@.extensions =~= Seq::<Seq<char>>::empty());
            assert(out@.imports =~= Seq::<Seq<char>>::empty());
            assert(out@.exports =~= Seq::<Seq<char>>::empty());
            assert(out@.ignores =~= Seq::<Seq<char>>::empty());
            assert(out@.rules =~= Seq::<(Seq<char>, RuleView)>::empty());
        }
        out
    }

    /// A grammar with the header of this one, around other rules.
    pub fn with_rules(&self, rules: IndexMap<String, GrammarRule>) -> (r: GrammarInfo)
        ensures
            r@ == self@.with_rules(entries_view(rule_entries(rules))),
            r.rules == rules,
    {
        let url = match &self.url {
            Some(u) => Some(u.clone()),
            None => None,
        };
        GrammarInfo {
            url,
            name: self.name.clone(),
            extensions: clone_strings(&self.extensions),
            imports: clone_strings(&self.imports),
            exports: clone_strings(&self.exports),
            ignores: clone_strings(&self.ignores),
            rules,
            range_type: self.range_type.clone(),
        }
    }

    /// How many rules the grammar declares.
    pub fn rule_count(&self) -> (r: usize)
        ensures
            r == self@.rules.len(),
    {
        rules_len(&self.rules)
    }

    /// The rule at this place in the order of declaration.
    pub fn rule_at(&self, index: usize) -> (r: Option<&GrammarRule>)
        ensures
            match r {
                Some(rule) => index < self@.rules.len() && rule@ == self@.rules[index as int].1,
                None => index >= self@.rules.len(),
            },
    {
        match rules_get_index(&self.rules, index) {
            Some((_, rule)) => Some(rule),
            None => None,
        }
    }

    /// The rule of this name, if the grammar declares it.
    pub fn get_rule(&self, name: &str) -> (r: Option<&GrammarRule>)
        ensures
            match r {
                Some(rule) => self@.rule_index(name@) is Some && rule@ == self@.rules[self@.rule_index(
                    name@,
                ).unwrap()].1,
                None => !self@.declares(name@),
            },
    {
        proof {
            lemma_key_index_view(rule_entries(self.rules), name@);
        }
        rules_get(&self.rules, name)
    }

    /// Where the rule of this name stands in the order of declaration, if
    /// the grammar declares it.
    pub fn rule_index(&self, name: &str) -> (r: Option<usize>)
        ensures
            match r {
                Some(i) => self@.rule_index(name@) == Some(i as int) && i < self@.rules.len(),
                None => self@.rule_index(name@) is None,
            },
    {
        proof {
            lemma_key_index_view(rule_entries(self.rules), name@);
        }
        rules_index_of(&self.rules, name)
    }

    /// Whether the grammar declares a rule of this name.
    pub fn declares(&self, name: &str) -> (r: bool)
        ensures
            r == self@.declares(name@),
    {
        self.get_rule(name).is_some()
    }

    /// Adds a name to the ignored names, unless it is among them: the
    /// result says whether it was added. The ignored names stay a set.
    pub fn ignore(&mut self, name: String) -> (r: bool)
        ensures
            r == !old(self)@.ignores.contains(name@),
            final(self)@ == (GrammarView {
                ignores: if r {
                    old(self)@.ignores.push(name@)
                } else {
                    old(self)@.ignores
                },
                ..old(self)@
            }),
            old(self)@.ignores_distinct() ==> final(self)@.ignores_distinct(),
    {
        let mut i: usize = 0;
        while i < self.ignores.len()
            invariant
                i <= self.ignores.len(),
                *self == *old(self),
                forall|j: int| 0 <= j < i ==> strings_view(self.ignores@)[j] != name@,
            decreases self.ignores.len() - i,
        {
            if self.ignores[i] == name {
                proof {
                    assert(strings_view(self.ignores@)[i as int] == name@);
                }
                return false;
            }
            i = i + 1;
        }
        let ghost before = self.ignores@;
        self.ignores.push(name);
        proof {
            assert(strings_view(self.ignores@) =~= strings_view(before).push(name@));
        }
        true
    }

    /// The rules that are skipped between tokens: the declared rules among
    /// the ignored names, in the order of the names.
    pub fn ignored_rules(&self) -> (r: Vec<GrammarRule>)
        ensures
            rules_view(r@) == spec_ignored_rules(self@, self@.ignores),
    {
        let mut out: Vec<GrammarRule> = Vec::new();
        let ghost names = strings_view(self.ignores@);
        let mut i: usize = 0;
        proof {
            assert(names.take(0) =~= Seq::<Seq<char>>::empty());
            assert(rules_view(out@) =~= spec_ignored_rules(self@, names.take(0)));
        }
        while i < self.ignores.len()
            invariant
                i <= self.ignores.len(),
                names == strings_view(self.ignores@),
                rules_view(out@) == spec_ignored_rules(self@, names.take(i as int)),
            decreases self.ignores.len() - i,
        {
            proof {
                assert(names.take(i + 1).drop_last() =~= names.take(i as int));
                assert(names.take(i + 1).last() == names[i as int]);
            }
            match self.get_rule(self.ignores[i].as_str()) {
                Some(rule) => {
                    let ghost before = out@;
                    out.push(rule.clone());
                    proof {
                        assert(rules_view(out@) =~= rules_view(before).push(rule@));
                    }
                },
                None => {},
            }
            i = i + 1;
        }
        proof {
            assert(names.take(i as int) =~= names);
        }
        out
    }

    /// Declares a rule under its own name. A rule that was declared under
    /// the name before gives way and is handed back; the new rule takes
    /// its place in the order. Else the rule goes to the end.
    pub fn insert_rule(&mut self, rule: GrammarRule) -> (r: Option<GrammarRule>)
        ensures
            final(self)@ == old(self)@.with_rules(
                rules_insert_view(old(self)@.rules, rule.name.text@, rule@),
            ),
            match old(self)@.rule_index(rule.name.text@) {
                Some(i) => r is Some && r.unwrap()@ == old(self)@.rules[i].1,
                None => r is None,
            },
    {
        let key = rule.name.text.clone();
        proof {
            lemma_key_index_view(rule_entries(self.rules), key@);
        }
        let ghost before = rule_entries(self.rules);
        let out = rules_insert(&mut self.rules, key, rule);
        proof {
            assert(entries_view(entries_insert(before, key@, rule)) =~= rules_insert_view(
                entries_view(before),
                key@,
                rule@,
            ));
        }
        out
    }
}

/// The models of a list of rules, one by one.
pub open spec fn rules_view(rules: Seq<GrammarRule>) -> Seq<RuleView> {
    Seq::new(rules.len(), |i: int| rules[i]@)
}

/// The declared rules among the names, in the order of the names.
pub open spec fn spec_ignored_rules(g: GrammarView, names: Seq<Seq<char>>) -> Seq<RuleView>
    decreases names.len(),
{
    if names.len() == 0 {
        Seq::empty()
    } else {
        match g.rule_index(names.last()) {
            Some(i) => spec_ignored_rules(g, names.drop_last()).push(g.rules[i].1),
            None => spec_ignored_rules(g, names.drop_last()),
        }
    }
}

/// The rules after `name` was given `rule`: in place where the name was
/// declared, else at the end.
pub open spec fn rules_insert_view(
    rules: Seq<(Seq<char>, RuleView)>,
    name: Seq<char>,
    rule: RuleView,
) -> Seq<(Seq<char>, RuleView)> {
    match rule_position(rules, name) {
        Some(i) => rules.update(i, (name, rule)),
        None => rules.push((name, rule)),
    }
}

impl Clone for GrammarInfo {
    fn clone(&self) -> (r: Self)
        ensures
            r@ == self@,
    {
        let mut rules = rules_new();
        let n = rules_len(&self.rules);
        let mut i: usize = 0;
        while i < n
            invariant
                i <= n,
                n == rule_entries(self.rules).len(),
                entries_view(rule_entries(rules)) == entries_view(rule_entries(self.rules)).take(
                    i as int,
                ),
            decreases n - i,
        {
            let ghost before = rule_entries(rules);
            match rules_get_index(&self.rules, i) {
                Some((key, rule)) => {
                    proof {
                        lemma_key_index_view(before, key@);
                        if key_index(before, key@) is Some {
                            let j = key_index(before, key@).unwrap();
                            assert(entries_view(before)[j].0 == key@);
                            assert(entries_view(rule_entries(self.rules)).take(i as int)[j].0
                                == rule_entries(self.rules)[j].0);
                        }
                    }
                    let copy = rule.clone();
                    rules_insert(&mut rules, key.clone(), copy);
                    proof {
                        assert(entries_view(rule_entries(rules)) =~= entries_view(
                            rule_entries(self.rules),
                        ).take(i + 1));
                    }
                },
                None => {},
            }
            i = i + 1;
        }
        proof {
            assert(entries_view(rule_entries(self.rules)).take(n as int) =~= entries_view(
                rule_entries(self.rules),
            ));
        }
        self.with_rules(rules)
    }
}

impl Default for GrammarInfo {
    fn default() -> (r: Self)
        ensures
            r@.rules.len() == 0,
            r@.range_type == "usize"@,
    {
        GrammarInfo::new()
    }
}

} // verus!
