//! Field maps: what fields the syntax-tree node of a rule has, of what
//! type and how often.

use vstd::prelude::*;
use crate::counter::FieldCounter;
use crate::expression::{
    expressions_view, lemma_view_children, ChoiceExpression, ConcatExpression, ExpressionKind,
    ExpressionKindView, ExpressionView, RuleReference, UnaryExpression, YggdrasilExpression,
    YggdrasilIdentifier,
};
use crate::operator::{chain_counter, spec_chain_counter};

verus! {

/// What a field holds.
#[derive(Debug, PartialEq, Eq)]
pub enum FieldKind {
    /// The node of the rule of this name.
    Rule(String),
    IgnoreText,
    IgnoreRegex,
    IgnoreComment,
    IgnoreWhitespace,
}

/// The model of a [`FieldKind`].
pub enum FieldKindView {
    Rule(Seq<char>),
    IgnoreText,
    IgnoreRegex,
    IgnoreComment,
    IgnoreWhitespace,
}

impl View for FieldKind {
    type V = FieldKindView;

    open spec fn view(&self) -> FieldKindView {
        match self {
            FieldKind::Rule(name) => FieldKindView::Rule(name@),
            FieldKind::IgnoreText => FieldKindView::IgnoreText,
            FieldKind::IgnoreRegex => FieldKindView::IgnoreRegex,
            FieldKind::IgnoreComment => FieldKindView::IgnoreComment,
            FieldKind::IgnoreWhitespace => FieldKindView::IgnoreWhitespace,
        }
    }
}

impl Clone for FieldKind {
    fn clone(&self) -> (r: Self)
        ensures
            r == *self,
    {
        match self {
            FieldKind::Rule(name) => FieldKind::Rule(name.clone()),
            FieldKind::IgnoreText => FieldKind::IgnoreText,
            FieldKind::IgnoreRegex => FieldKind::IgnoreRegex,
            FieldKind::IgnoreComment => FieldKind::IgnoreComment,
            FieldKind::IgnoreWhitespace => FieldKind::IgnoreWhitespace,
        }
    }
}

/// One field of a syntax-tree node: `bind: kind`, so many times.
#[derive(Debug, PartialEq, Eq)]
pub struct YggdrasilField {
    pub bind: String,
    pub kind: FieldKind,
    pub count: FieldCounter,
}

/// What a field map says of one name.
pub struct FieldView {
    pub kind: FieldKindView,
    pub count: FieldCounter,
}

impl View for YggdrasilField {
    type V = FieldView;

    open spec fn view(&self) -> FieldView {
        FieldView { kind: self.kind@, count: self.count }
    }
}

impl Clone for YggdrasilField {
    fn clone(&self) -> (r: Self)
        ensures
            r == *self,
    {
        YggdrasilField { bind: self.bind.clone(), kind: self.kind.clone(), count: self.count }
    }
}

/// A field map as mathematics: from the name of a field to its type and
/// counter.
pub type FieldMap = Map<Seq<char>, FieldView>;

/// The map that a list of fields stands for.
pub open spec fn fields_map(fields: Seq<YggdrasilField>) -> FieldMap
    decreases fields.len(),
{
    if fields.len() == 0 {
        Map::empty()
    } else {
        fields_map(fields.drop_last()).insert(fields.last().bind@, fields.last()@)
    }
}

/// No name occurs twice in the list.
pub open spec fn distinct_binds(fields: Seq<YggdrasilField>) -> bool {
    forall|i: int, j: int|
        0 <= i < j < fields.len() ==> (#[trigger] fields[i]).bind@ != (#[trigger] fields[j]).bind@
}

/// `f` with another counter.
pub open spec fn with_count(f: FieldView, count: FieldCounter) -> FieldView {
    FieldView { kind: f.kind, count }
}

/// The fields of a sequence, from the fields of its two sides: a field of
/// one side alone passes through, a field of both sides keeps the type of
/// the left and combines the counters.
pub open spec fn and_maps(a: FieldMap, b: FieldMap) -> FieldMap {
    Map::new(
        |k: Seq<char>| a.dom().contains(k) || b.dom().contains(k),
        |k: Seq<char>|
            if a.dom().contains(k) {
                if b.dom().contains(k) {
                    with_count(a[k], a[k].count.spec_and(b[k].count))
                } else {
                    a[k]
                }
            } else {
                b[k]
            },
    )
}

/// The fields of a choice, from the fields of its two sides: a field of
/// both sides keeps the type of the left and widens to the weaker counter,
/// a field of one side alone is combined with `Never` for the other.
pub open spec fn or_maps(a: FieldMap, b: FieldMap) -> FieldMap {
    Map::new(
        |k: Seq<char>| a.dom().contains(k) || b.dom().contains(k),
        |k: Seq<char>|
            if a.dom().contains(k) {
                if b.dom().contains(k) {
                    with_count(a[k], a[k].count.spec_or(b[k].count))
                } else {
                    with_count(a[k], a[k].count.spec_or_absent())
                }
            } else {
                with_count(b[k], b[k].count.spec_or_absent())
            },
    )
}

/// The fields below an operator chain of counter `c`: the same fields,
/// each counter multiplied by `c`.
pub open spec fn mul_map(a: FieldMap, c: FieldCounter) -> FieldMap {
    Map::new(
        |k: Seq<char>| a.dom().contains(k),
        |k: Seq<char>| with_count(a[k], a[k].count.spec_mul(c)),
    )
}

/// The field maps of a sequence of items, folded with [`and_maps`] from
/// the first on.
pub open spec fn and_fold(maps: Seq<FieldMap>) -> FieldMap
    decreases maps.len(),
{
    if maps.len() == 0 {
        Map::empty()
    } else if maps.len() == 1 {
        maps[0]
    } else {
        and_maps(and_fold(maps.drop_last()), maps.last())
    }
}

/// The field maps of the branches of a choice, folded with [`or_maps`]
/// from the first on.
pub open spec fn or_fold(maps: Seq<FieldMap>) -> FieldMap
    decreases maps.len(),
{
    if maps.len() == 0 {
        Map::empty()
    } else if maps.len() == 1 {
        maps[0]
    } else {
        or_maps(or_fold(maps.drop_last()), maps.last())
    }
}

/// The field map of an expression.
///
/// A tagged rule reference is one field, captured once, of the type of
/// the rule; a sequence and-folds and a choice or-folds its children; a
/// unary node multiplies the fields of its base by the counter of its
/// operator chain; everything else captures nothing.
pub open spec fn spec_field_map(e: ExpressionView) -> FieldMap
    decreases e,
{
    match e.body {
        ExpressionKindView::Choice(branches) => or_fold(field_maps(branches)),
        ExpressionKindView::Concat(sequence) => and_fold(field_maps(sequence)),
        ExpressionKindView::Unary(base, operators) => mul_map(
            spec_field_map(*base),
            spec_chain_counter(operators),
        ),
        ExpressionKindView::Rule(reference) => match e.tag {
            Some(tag) => Map::empty().insert(
                tag.text,
                FieldView { kind: FieldKindView::Rule(reference.name), count: FieldCounter::One },
            ),
            None => Map::empty(),
        },
        _ => Map::empty(),
    }
}

/// The field maps of a list of expressions, item by item.
pub open spec fn field_maps(items: Seq<ExpressionView>) -> Seq<FieldMap>
    decreases items,
{
    Seq::new(
        items.len(),
        |i: int|
            if 0 <= i < items.len() {
                spec_field_map(items[i])
            } else {
                arbitrary()
            },
    )
}

/// Every field of a well-formed list is in its map, with its own value.
pub proof fn lemma_fields_map_index(fields: Seq<YggdrasilField>, i: int)
    requires
        distinct_binds(fields),
        0 <= i < fields.len(),
    ensures
        fields_map(fields).dom().contains(fields[i].bind@),
        fields_map(fields)[fields[i].bind@] == fields[i]@,
    decreases fields.len(),
{
    if i < fields.len() - 1 {
        lemma_fields_map_index(fields.drop_last(), i);
        assert(fields.drop_last()[i] == fields[i]);
    }
}

/// Every name of the map is the name of a field of the list.
pub proof fn lemma_fields_map_dom(fields: Seq<YggdrasilField>, name: Seq<char>)
    requires
        fields_map(fields).dom().contains(name),
    ensures
        exists|i: int| 0 <= i < fields.len() && (#[trigger] fields[i]).bind@ == name,
    decreases fields.len(),
{
    if fields.len() > 0 {
        if fields.last().bind@ == name {
            assert(fields[fields.len() - 1].bind@ == name);
        } else {
            lemma_fields_map_dom(fields.drop_last(), name);
            let i = choose|i: int|
                0 <= i < fields.drop_last().len() && (#[trigger] fields.drop_last()[i]).bind@
                    == name;
            assert(fields[i].bind@ == name);
        }
    }
}

/// A field map: the fields of one syntax-tree node, each name once, in
/// the order in which the names first appear.
#[derive(Debug, PartialEq, Eq)]
pub struct YggdrasilVariants {
    pub fields: Vec<YggdrasilField>,
}

impl View for YggdrasilVariants {
    type V = FieldMap;

    open spec fn view(&self) -> FieldMap {
        fields_map(self.fields@)
    }
}

impl YggdrasilVariants {
    /// No name occurs twice.
    pub open spec fn wf(&self) -> bool {
        distinct_binds(self.fields@)
    }

    /// The map without fields.
    pub fn new() -> (r: YggdrasilVariants)
        ensures
            r.wf(),
            r@ == Map::<Seq<char>, FieldView>::empty(),
            r.fields@.len() == 0,
    {
        YggdrasilVariants { fields: Vec::new() }
    }

    /// The map of one captured rule reference: `tag: rule`, `count` times.
    pub fn rule(tag: &YggdrasilIdentifier, rule: &RuleReference, count: FieldCounter) -> (r:
        YggdrasilVariants)
        ensures
            r.wf(),
            r@ == Map::<Seq<char>, FieldView>::empty().insert(
                tag.text@,
                FieldView { kind: FieldKindView::Rule(rule.name@), count },
            ),
            r.fields@.len() == 1,
    {
        let mut fields: Vec<YggdrasilField> = Vec::new();
        fields.push(
            YggdrasilField { bind: tag.text.clone(), kind: FieldKind::Rule(rule.name.clone()), count },
        );
        proof {
            assert(fields@.drop_last() =~= Seq::<YggdrasilField>::empty());
            assert(fields_map(fields@.drop_last()) =~= Map::<Seq<char>, FieldView>::empty());
        }
        YggdrasilVariants { fields }
    }

    /// How many fields there are.
    pub fn len(&self) -> (r: usize)
        ensures
            r == self.fields@.len(),
    {
        self.fields.len()
    }

    /// Where the field of this name stands, if there is one.
    pub fn position(&self, name: &String) -> (r: Option<usize>)
        requires
            self.wf(),
        ensures
            match r {
                Some(i) => i < self.fields@.len() && self.fields@[i as int].bind@ == name@,
                None => !self@.dom().contains(name@),
            },
            r is Some <==> self@.dom().contains(name@),
    {
        let mut i: usize = 0;
        while i < self.fields.len()
            invariant
                i <= self.fields.len(),
                self.wf(),
                forall|j: int| 0 <= j < i ==> (#[trigger] self.fields@[j]).bind@ != name@,
            decreases self.fields.len() - i,
        {
            if self.fields[i].bind == *name {
                proof {
                    lemma_fields_map_index(self.fields@, i as int);
                }
                return Some(i);
            }
            i = i + 1;
        }
        proof {
            if self@.dom().contains(name@) {
                lemma_fields_map_dom(self.fields@, name@);
            }
        }
        None
    }

    /// The field of this name, if there is one.
    pub fn get(&self, name: &String) -> (r: Option<&YggdrasilField>)
        requires
            self.wf(),
        ensures
            match r {
                Some(f) => self@.dom().contains(name@) && f@ == self@[name@] && f.bind@ == name@,
                None => !self@.dom().contains(name@),
            },
    {
        match self.position(name) {
            Some(i) => {
                proof {
                    lemma_fields_map_index(self.fields@, i as int);
                }
                Some(&self.fields[i])
            },
            None => None,
        }
    }

    /// `self & rhs`: the fields of a sequence whose two sides have these
    /// fields.
    pub fn and(self, rhs: YggdrasilVariants) -> (r: YggdrasilVariants)
        requires
            self.wf(),
            rhs.wf(),
        ensures
            r.wf(),
            r@ == and_maps(self@, rhs@),
    {
        let mut fields: Vec<YggdrasilField> = Vec::new();
        let mut i: usize = 0;
        while i < self.fields.len()
            invariant
                i <= self.fields.len(),
                self.wf(),
                rhs.wf(),
                fields@.len() == i,
                forall|j: int| 0 <= j < i ==> (#[trigger] fields@[j]).bind@ == self.fields@[j].bind@,
                fields_map(fields@) == Map::new(
                    |k: Seq<char>| fields_map(self.fields@.take(i as int)).dom().contains(k),
                    |k: Seq<char>| and_maps(self@, rhs@)[k],
                ),
            decreases self.fields.len() - i,
        {
            let f = &self.fields[i];
            let count = match rhs.get(&f.bind) {
                Some(g) => f.count.and(g.count),
                None => f.count,
            };
            let ghost before = fields@;
            proof {
                lemma_fields_map_index(self.fields@, i as int);
                assert(self.fields@.take(i + 1).drop_last() =~= self.fields@.take(i as int));
                assert(self.fields@.take(i + 1).last() == self.fields@[i as int]);
            }
            fields.push(YggdrasilField { bind: f.bind.clone(), kind: f.kind.clone(), count });
            proof {
                assert(fields@.drop_last() =~= before);
                assert(fields_map(fields@) =~= Map::new(
                    |k: Seq<char>| fields_map(self.fields@.take(i + 1)).dom().contains(k),
                    |k: Seq<char>| and_maps(self@, rhs@)[k],
                ));
            }
            i = i + 1;
        }
        proof {
            assert(self.fields@.take(i as int) =~= self.fields@);
        }
        let ghost left = fields@;
        let mut j: usize = 0;
        while j < rhs.fields.len()
            invariant
                j <= rhs.fields.len(),
                self.wf(),
                rhs.wf(),
                distinct_binds(fields@),
                fields_map(fields@) == Map::new(
                    |k: Seq<char>|
                        self@.dom().contains(k) || fields_map(rhs.fields@.take(j as int)).dom().contains(
                            k,
                        ),
                    |k: Seq<char>| and_maps(self@, rhs@)[k],
                ),
            decreases rhs.fields.len() - j,
        {
            let g = &rhs.fields[j];
            let ghost before = fields@;
            proof {
                lemma_fields_map_index(rhs.fields@, j as int);
                assert(rhs.fields@.take(j + 1).drop_last() =~= rhs.fields@.take(j as int));
                assert(rhs.fields@.take(j + 1).last() == rhs.fields@[j as int]);
                lemma_prefix_lacks_later(rhs.fields@, j as int);
            }
            if self.position(&g.bind).is_none() {
                proof {
                    lemma_absent_bind(fields@, g.bind@);
                }
                fields.push(g.clone());
                proof {
                    assert(fields@.drop_last() =~= before);
                }
            }
            proof {
                assert(fields_map(fields@) =~= Map::new(
                    |k: Seq<char>|
                        self@.dom().contains(k) || fields_map(rhs.fields@.take(j + 1)).dom().contains(
                            k,
                        ),
                    |k: Seq<char>| and_maps(self@, rhs@)[k],
                ));
            }
            j = j + 1;
        }
        proof {
            assert(rhs.fields@.take(j as int) =~= rhs.fields@);
            assert(fields_map(fields@) =~= and_maps(self@, rhs@));
        }
        YggdrasilVariants { fields }
    }
}

/// The name of a field does not occur among the fields before it.
pub proof fn lemma_prefix_lacks_later(fields: Seq<YggdrasilField>, j: int)
    requires
        distinct_binds(fields),
        0 <= j < fields.len(),
    ensures
        !fields_map(fields.take(j)).dom().contains(fields[j].bind@),
{
    if fields_map(fields.take(j)).dom().contains(fields[j].bind@) {
        lemma_fields_map_dom(fields.take(j), fields[j].bind@);
        let i = choose|i: int|
            0 <= i < fields.take(j).len() && (#[trigger] fields.take(j)[i]).bind@ == fields[j].bind@;
        assert(fields.take(j)[i] == fields[i]);
    }
}

/// A name that the map does not hold is the name of no field.
pub proof fn lemma_absent_bind(fields: Seq<YggdrasilField>, name: Seq<char>)
    requires
        distinct_binds(fields),
        !fields_map(fields).dom().contains(name),
    ensures
        forall|i: int| 0 <= i < fields.len() ==> (#[trigger] fields[i]).bind@ != name,
{
    assert forall|i: int| 0 <= i < fields.len() implies (#[trigger] fields[i]).bind@ != name by {
        lemma_fields_map_index(fields, i);
    }
}

impl YggdrasilVariants {
    /// `self | rhs`: the fields of a choice whose two sides have these
    /// fields.
    pub fn or(self, rhs: YggdrasilVariants) -> (r: YggdrasilVariants)
        requires
            self.wf(),
            rhs.wf(),
        ensures
            r.wf(),
            r@ == or_maps(self@, rhs@),
    {
        let mut fields: Vec<YggdrasilField> = Vec::new();
        let mut i: usize = 0;
        while i < self.fields.len()
            invariant
                i <= self.fields.len(),
                self.wf(),
                rhs.wf(),
                fields@.len() == i,
                forall|j: int| 0 <= j < i ==> (#[trigger] fields@[j]).bind@ == self.fields@[j].bind@,
                fields_map(fields@) == Map::new(
                    |k: Seq<char>| fields_map(self.fields@.take(i as int)).dom().contains(k),
                    |k: Seq<char>| or_maps(self@, rhs@)[k],
                ),
            decreases self.fields.len() - i,
        {
            let f = &self.fields[i];
            let count = match rhs.get(&f.bind) {
                Some(g) => f.count.or(g.count),
                None => f.count.or_absent(),
            };
            let ghost before = fields@;
            proof {
                lemma_fields_map_index(self.fields@, i as int);
                assert(self.fields@.take(i + 1).drop_last() =~= self.fields@.take(i as int));
                assert(self.fields@.take(i + 1).last() == self.fields@[i as int]);
            }
            fields.push(YggdrasilField { bind: f.bind.clone(), kind: f.kind.clone(), count });
            proof {
                assert(fields@.drop_last() =~= before);
                assert(fields_map(fields@) =~= Map::new(
                    |k: Seq<char>| fields_map(self.fields@.take(i + 1)).dom().contains(k),
                    |k: Seq<char>| or_maps(self@, rhs@)[k],
                ));
            }
            i = i + 1;
        }
        proof {
            assert(self.fields@.take(i as int) =~= self.fields@);
        }
        let mut j: usize = 0;
        while j < rhs.fields.len()
            invariant
                j <= rhs.fields.len(),
                self.wf(),
                rhs.wf(),
                distinct_binds(fields@),
                fields_map(fields@) == Map::new(
                    |k: Seq<char>|
                        self@.dom().contains(k) || fields_map(rhs.fields@.take(j as int)).dom().contains(
                            k,
                        ),
                    |k: Seq<char>| or_maps(self@, rhs@)[k],
                ),
            decreases rhs.fields.len() - j,
        {
            let g = &rhs.fields[j];
            let ghost before = fields@;
            proof {
                lemma_fields_map_index(rhs.fields@, j as int);
                assert(rhs.fields@.take(j + 1).drop_last() =~= rhs.fields@.take(j as int));
                assert(rhs.fields@.take(j + 1).last() == rhs.fields@[j as int]);
                lemma_prefix_lacks_later(rhs.fields@, j as int);
            }
            if self.position(&g.bind).is_none() {
                proof {
                    lemma_absent_bind(fields@, g.bind@);
                }
                fields.push(
                    YggdrasilField {
                        bind: g.bind.clone(),
                        kind: g.kind.clone(),
                        count: g.count.or_absent(),
                    },
                );
                proof {
                    assert(fields@.drop_last() =~= before);
                }
            }
            proof {
                assert(fields_map(fields@) =~= Map::new(
                    |k: Seq<char>|
                        self@.dom().contains(k) || fields_map(rhs.fields@.take(j + 1)).dom().contains(
                            k,
                        ),
                    |k: Seq<char>| or_maps(self@, rhs@)[k],
                ));
            }
            j = j + 1;
        }
        proof {
            assert(rhs.fields@.take(j as int) =~= rhs.fields@);
            assert(fields_map(fields@) =~= or_maps(self@, rhs@));
        }
        YggdrasilVariants { fields }
    }

    /// `self * count`: the same fields below an operator chain of this
    /// counter.
    pub fn mul(self, count: FieldCounter) -> (r: YggdrasilVariants)
        requires
            self.wf(),
        ensures
            r.wf(),
            r@ == mul_map(self@, count),
    {
        let mut fields: Vec<YggdrasilField> = Vec::new();
        let mut i: usize = 0;
        while i < self.fields.len()
            invariant
                i <= self.fields.len(),
                self.wf(),
                fields@.len() == i,
                forall|j: int| 0 <= j < i ==> (#[trigger] fields@[j]).bind@ == self.fields@[j].bind@,
                fields_map(fields@) == mul_map(fields_map(self.fields@.take(i as int)), count),
            decreases self.fields.len() - i,
        {
            let f = &self.fields[i];
            let ghost before = fields@;
            proof {
                assert(self.fields@.take(i + 1).drop_last() =~= self.fields@.take(i as int));
                assert(self.fields@.take(i + 1).last() == self.fields@[i as int]);
            }
            fields.push(
                YggdrasilField {
                    bind: f.bind.clone(),
                    kind: f.kind.clone(),
                    count: f.count.mul(count),
                },
            );
            proof {
                assert(fields@.drop_last() =~= before);
                assert(fields_map(fields@) =~= mul_map(
                    fields_map(self.fields@.take(i + 1)),
                    count,
                ));
            }
            i = i + 1;
        }
        proof {
            assert(self.fields@.take(i as int) =~= self.fields@);
        }
        YggdrasilVariants { fields }
    }
}

impl YggdrasilExpression {
    /// The fields that this expression captures.
    pub fn field_map(&self) -> (r: YggdrasilVariants)
        ensures
            r.wf(),
            r@ == spec_field_map(self@),
        decreases self,
    {
        proof {
            lemma_view_children(*self);
        }
        match &self.body {
            ExpressionKind::Choice(many) => many.field_map(),
            ExpressionKind::Concat(many) => many.field_map(),
            ExpressionKind::Unary(one) => one.field_map(),
            ExpressionKind::Rule(one) => match &self.tag {
                Some(s) => YggdrasilVariants::rule(s, one, FieldCounter::One),
                None => YggdrasilVariants::new(),
            },
            _ => YggdrasilVariants::new(),
        }
    }
}

impl ConcatExpression {
    /// The fields of the sequence: those of its items, and-folded.
    pub fn field_map(&self) -> (r: YggdrasilVariants)
        ensures
            r.wf(),
            r@ == and_fold(field_maps(expressions_view(self.sequence@))),
        decreases self,
    {
        let n = self.sequence.len();
        if n == 0 {
            return YggdrasilVariants::new();
        }
        let ghost maps = field_maps(expressions_view(self.sequence@));
        let mut map = self.sequence[0].field_map();
        let mut i: usize = 1;
        proof {
            assert(maps.take(1)[0] == maps[0]);
        }
        while i < n
            invariant
                1 <= i <= n,
                n == self.sequence.len(),
                maps == field_maps(expressions_view(self.sequence@)),
                map.wf(),
                map@ == and_fold(maps.take(i as int)),
            decreases n - i,
        {
            let item = self.sequence[i].field_map();
            proof {
                assert(maps.take(i + 1).drop_last() =~= maps.take(i as int));
                assert(maps.take(i + 1).last() == maps[i as int]);
            }
            map = map.and(item);
            i = i + 1;
        }
        proof {
            assert(maps.take(n as int) =~= maps);
        }
        map
    }
}

impl ChoiceExpression {
    /// The fields of the choice: those of its branches, or-folded.
    pub fn field_map(&self) -> (r: YggdrasilVariants)
        ensures
            r.wf(),
            r@ == or_fold(field_maps(expressions_view(self.branches@))),
        decreases self,
    {
        let n = self.branches.len();
        if n == 0 {
            return YggdrasilVariants::new();
        }
        let ghost maps = field_maps(expressions_view(self.branches@));
        let mut map = self.branches[0].field_map();
        let mut i: usize = 1;
        proof {
            assert(maps.take(1)[0] == maps[0]);
        }
        while i < n
            invariant
                1 <= i <= n,
                n == self.branches.len(),
                maps == field_maps(expressions_view(self.branches@)),
                map.wf(),
                map@ == or_fold(maps.take(i as int)),
            decreases n - i,
        {
            let item = self.branches[i].field_map();
            proof {
                assert(maps.take(i + 1).drop_last() =~= maps.take(i as int));
                assert(maps.take(i + 1).last() == maps[i as int]);
            }
            map = map.or(item);
            i = i + 1;
        }
        proof {
            assert(maps.take(n as int) =~= maps);
        }
        map
    }
}

impl UnaryExpression {
    /// The fields of the base, each multiplied by the counter of the
    /// operator chain.
    pub fn field_map(&self) -> (r: YggdrasilVariants)
        ensures
            r.wf(),
            r@ == mul_map(spec_field_map(self.base@), spec_chain_counter(self.operators@)),
        decreases self,
    {
        let map = (&*self.base).field_map();
        map.mul(self.counter())
    }

    /// The accumulated counter of the operator chain, `One` for an empty
    /// chain.
    pub fn counter(&self) -> (r: FieldCounter)
        ensures
            r == spec_chain_counter(self.operators@),
    {
        chain_counter(&self.operators)
    }
}

/// In a sequence, a field that one side can never have is `Never` for the
/// whole, while the fields that only one side has pass through unchanged.
pub proof fn lemma_and_maps_never(a: FieldMap, b: FieldMap, name: Seq<char>)
    requires
        a.dom().contains(name),
        b.dom().contains(name),
        a[name].count == FieldCounter::Never || b[name].count == FieldCounter::Never,
    ensures
        and_maps(a, b)[name].count == FieldCounter::Never,
        forall|k: Seq<char>|
            a.dom().contains(k) && !b.dom().contains(k) ==> #[trigger] and_maps(a, b)[k] == a[k],
        forall|k: Seq<char>|
            b.dom().contains(k) && !a.dom().contains(k) ==> #[trigger] and_maps(a, b)[k] == b[k],
{
}

/// A choice between twice the same fields has these fields.
pub proof fn lemma_or_maps_idempotent(a: FieldMap)
    ensures
        or_maps(a, a) == a,
{
    assert(or_maps(a, a) =~= a);
}

/// A field that only one alternative captures once is optional.
pub proof fn lemma_or_maps_one_sided(a: FieldMap, b: FieldMap, name: Seq<char>)
    requires
        a.dom().contains(name) != b.dom().contains(name),
    ensures
        or_maps(a, b).dom().contains(name),
        a.dom().contains(name) && a[name].count == FieldCounter::One ==> or_maps(a, b)[name].count
            == FieldCounter::Optional,
        b.dom().contains(name) && b[name].count == FieldCounter::One ==> or_maps(a, b)[name].count
            == FieldCounter::Optional,
{
}

/// Below a chain that holds a negative lookahead every field is `Never`.
pub proof fn lemma_mul_map_never(a: FieldMap, name: Seq<char>)
    requires
        a.dom().contains(name),
    ensures
        mul_map(a, FieldCounter::Never)[name].count == FieldCounter::Never,
        a[name].count == FieldCounter::Never ==> forall|c: FieldCounter|
            (#[trigger] mul_map(a, c))[name].count == FieldCounter::Never,
{
}

} // verus!
