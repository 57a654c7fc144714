//! Metric keys: a name and an optional, ordered list of labels.
//!
//! Two keys are the same key exactly when their names are equal and their label
//! lists are equal element by element, in order.  Nothing is normalised: the same
//! labels in another order make another key, and a key without labels differs
//! from a key with an empty label list.

use crate::common::{scoped_clone, scoped_eq, scoped_str, ScopedString};
use std::borrow::Cow;
use vstd::prelude::*;
use vstd::std_specs::cmp::PartialEqSpecImpl;
use vstd::std_specs::convert::FromSpecImpl;
use vstd::string::StringExecFns;

verus! {

/// What a label is: the characters of its key and of its value.
pub struct LabelModel {
    pub key: Seq<char>,
    pub value: Seq<char>,
}

/// What a key is: the characters of its name, and its labels in order, if it has any.
pub struct KeyModel {
    pub name: Seq<char>,
    pub labels: Option<Seq<LabelModel>>,
}

/// A key/value pair that further describes a metric.
#[derive(Eq, Hash, Debug)]
pub struct Label(pub(crate) ScopedString, pub(crate) ScopedString);

/// A metric key.
///
/// A key always has a name, and may have labels that further describe the metric.
#[derive(Eq, Hash, Debug)]
pub struct Key {
    name: ScopedString,
    labels: Option<Vec<Label>>,
}

/// The models of a sequence of labels, in the same order.
pub open spec fn label_models(labels: Seq<Label>) -> Seq<LabelModel> {
    Seq::new(labels.len(), |i: int| labels[i]@)
}

/// The model of an optional label list.
pub open spec fn optional_label_models(labels: Option<Vec<Label>>) -> Option<Seq<LabelModel>> {
    match labels {
        Some(v) => Some(label_models(v@)),
        None => None,
    }
}

/// The models of the labels that a sequence of items stands for, in the same order.
pub open spec fn source_models<P: ToLabel>(items: Seq<P>) -> Seq<LabelModel> {
    Seq::new(items.len(), |i: int| items[i].label_model())
}

/// How a list of labels is written: each label as its key, ` = ` and its value,
/// with `, ` between one label and the next.
pub open spec fn rendered_labels(labels: Seq<LabelModel>) -> Seq<char>
    decreases labels.len(),
{
    if labels.len() == 0 {
        Seq::empty()
    } else if labels.len() == 1 {
        labels[0].key + " = "@ + labels[0].value
    } else {
        rendered_labels(labels.drop_last()) + ", "@ + labels.last().key + " = "@
            + labels.last().value
    }
}

/// How a key is written: `Key(name)` without labels, and `Key(name, [labels])`
/// with them.
pub open spec fn rendered_key(key: KeyModel) -> Seq<char> {
    match key.labels {
        None => "Key("@ + key.name + ")"@,
        Some(labels) => "Key("@ + key.name + ", ["@ + rendered_labels(labels) + "])"@,
    }
}

impl View for Label {
    type V = LabelModel;

    closed spec fn view(&self) -> LabelModel {
        LabelModel { key: self.0@, value: self.1@ }
    }
}

impl View for Key {
    type V = KeyModel;

    closed spec fn view(&self) -> KeyModel {
        KeyModel { name: self.name@, labels: optional_label_models(self.labels) }
    }
}

impl PartialEq for Label {
    /// Two labels are equal when their keys and their values hold the same
    /// characters.
    fn eq(&self, other: &Label) -> (r: bool) {
        scoped_eq(&self.0, &other.0) && scoped_eq(&self.1, &other.1)
    }
}

impl PartialEqSpecImpl for Label {
    open spec fn obeys_eq_spec() -> bool {
        true
    }

    open spec fn eq_spec(&self, other: &Label) -> bool {
        self@ == other@
    }
}

/// Whether two label lists are equal label by label, in order.
fn same_labels(a: &Vec<Label>, b: &Vec<Label>) -> (r: bool)
    ensures
        r == (label_models(a@) == label_models(b@)),
{
    if a.len() != b.len() {
        assert(label_models(a@).len() != label_models(b@).len());
        return false;
    }
    let mut i: usize = 0;
    while i < a.len()
        invariant
            i <= a.len(),
            a.len() == b.len(),
            forall|j: int| 0 <= j < i ==> a[j]@ == b[j]@,
        decreases a.len() - i,
    {
        if !(a[i] == b[i]) {
            assert(label_models(a@)[i as int] != label_models(b@)[i as int]);
            return false;
        }
        i += 1;
    }
    assert(label_models(a@) =~= label_models(b@));
    true
}

impl PartialEq for Key {
    /// Two keys are equal when their names hold the same characters and their
    /// label lists are equal label by label, in order.  A key without labels equals
    /// only keys without labels.
    fn eq(&self, other: &Key) -> (r: bool) {
        if !scoped_eq(&self.name, &other.name) {
            return false;
        }
        match (&self.labels, &other.labels) {
            (None, None) => true,
            (Some(a), Some(b)) => same_labels(a, b),
            _ => false,
        }
    }
}

impl PartialEqSpecImpl for Key {
    open spec fn obeys_eq_spec() -> bool {
        true
    }

    open spec fn eq_spec(&self, other: &Key) -> bool {
        self@ == other@
    }
}

impl Clone for Label {
    fn clone(&self) -> (r: Label)
        ensures
            r@ == self@,
    {
        Label(scoped_clone(&self.0), scoped_clone(&self.1))
    }
}

/// A copy of `labels`, label by label.
fn clone_labels(labels: &Vec<Label>) -> (r: Vec<Label>)
    ensures
        label_models(r@) == label_models(labels@),
{
    let mut out: Vec<Label> = Vec::new();
    let mut i: usize = 0;
    while i < labels.len()
        invariant
            i <= labels.len(),
            out.len() == i,
            forall|j: int| 0 <= j < i ==> out[j]@ == labels[j]@,
        decreases labels.len() - i,
    {
        out.push(labels[i].clone());
        i += 1;
    }
    assert(label_models(out@) =~= label_models(labels@));
    out
}

impl Clone for Key {
    fn clone(&self) -> (r: Key)
        ensures
            r@ == self@,
    {
        let labels = match &self.labels {
            Some(v) => Some(clone_labels(v)),
            None => None,
        };
        Key { name: scoped_clone(&self.name), labels }
    }
}

impl Label {
    /// The key of this label as it is stored.
    pub closed spec fn scoped_key(&self) -> ScopedString {
        self.0
    }

    /// The value of this label as it is stored.
    pub closed spec fn scoped_value(&self) -> ScopedString {
        self.1
    }

    /// Creates a `Label` from a key and value: its key is what `key` converts into,
    /// and its value what `value` converts into.
    pub fn new<K: Into<ScopedString>, V: Into<ScopedString>>(key: K, value: V) -> (r: Label)
        ensures
            call_ensures(K::into, (key,), r.scoped_key()),
            call_ensures(V::into, (value,), r.scoped_value()),
            r@ == (LabelModel { key: r.scoped_key()@, value: r.scoped_value()@ }),
    {
        Label(key.into(), value.into())
    }

    /// The key of this label.
    pub fn key(&self) -> (r: &str)
        ensures
            r@ == self@.key,
    {
        scoped_str(&self.0)
    }

    /// The value of this label.
    pub fn value(&self) -> (r: &str)
        ensures
            r@ == self@.value,
    {
        scoped_str(&self.1)
    }

    /// Consumes this `Label`, returning the key and value.
    pub fn into_parts(self) -> (r: (ScopedString, ScopedString))
        ensures
            r.0 == self.scoped_key(),
            r.1 == self.scoped_value(),
            r.0@ == self@.key,
            r.1@ == self@.value,
    {
        (self.0, self.1)
    }
}

/// A value that can be turned into a list of labels.
pub trait IntoLabels: Sized {
    /// The labels that this value stands for, in order.
    spec fn labels_model(self) -> Seq<LabelModel>;

    /// Consumes this value, turning it into a vector of `Label`s.
    fn into_labels(self) -> (r: Vec<Label>)
        ensures
            label_models(r@) == self.labels_model(),
    ;
}

impl IntoLabels for Vec<Label> {
    open spec fn labels_model(self) -> Seq<LabelModel> {
        label_models(self@)
    }

    fn into_labels(self) -> (r: Vec<Label>) {
        self
    }
}

/// A string that a `ScopedString` can be made of without consuming it.
pub trait ToScoped {
    /// The characters of this string.
    spec fn scoped_model(&self) -> Seq<char>;

    /// A `ScopedString` with the characters of this string.  A static string is
    /// borrowed, an owned one is copied.
    fn to_scoped(&self) -> (r: ScopedString)
        ensures
            r@ == self.scoped_model(),
    ;
}

impl ToScoped for &'static str {
    open spec fn scoped_model(&self) -> Seq<char> {
        self@
    }

    fn to_scoped(&self) -> (r: ScopedString) {
        Cow::Borrowed(*self)
    }
}

impl ToScoped for String {
    open spec fn scoped_model(&self) -> Seq<char> {
        self@
    }

    fn to_scoped(&self) -> (r: ScopedString) {
        Cow::Owned(self.clone())
    }
}

impl ToScoped for ScopedString {
    open spec fn scoped_model(&self) -> Seq<char> {
        self@
    }

    fn to_scoped(&self) -> (r: ScopedString) {
        scoped_clone(self)
    }
}

/// Something that a label can be made of without consuming it: a label, or a pair
/// of strings that stand for its key and its value.
pub trait ToLabel {
    /// The label that this value stands for.
    spec fn label_model(&self) -> LabelModel;

    /// A label made of this value.
    fn to_label(&self) -> (r: Label)
        ensures
            r@ == self.label_model(),
    ;
}

impl ToLabel for Label {
    open spec fn label_model(&self) -> LabelModel {
        self@
    }

    fn to_label(&self) -> (r: Label) {
        self.clone()
    }
}

impl<K: ToScoped, V: ToScoped> ToLabel for (K, V) {
    open spec fn label_model(&self) -> LabelModel {
        LabelModel { key: self.0.scoped_model(), value: self.1.scoped_model() }
    }

    fn to_label(&self) -> (r: Label) {
        Label(self.0.to_scoped(), self.1.to_scoped())
    }
}

/// The labels that the items of a slice stand for, in order.
fn labels_of<P: ToLabel>(items: &[P]) -> (r: Vec<Label>)
    ensures
        label_models(r@) == source_models(items@),
{
    let mut out: Vec<Label> = Vec::new();
    let mut i: usize = 0;
    while i < items.len()
        invariant
            i <= items.len(),
            out.len() == i,
            forall|j: int| 0 <= j < i ==> out[j]@ == items[j].label_model(),
        decreases items.len() - i,
    {
        out.push(items[i].to_label());
        i += 1;
    }
    assert(label_models(out@) =~= source_models(items@));
    out
}

impl<P: ToLabel> IntoLabels for &Vec<P> {
    open spec fn labels_model(self) -> Seq<LabelModel> {
        source_models(self@)
    }

    fn into_labels(self) -> (r: Vec<Label>) {
        labels_of(self.as_slice())
    }
}

impl<P: ToLabel> IntoLabels for &[P] {
    open spec fn labels_model(self) -> Seq<LabelModel> {
        source_models(self@)
    }

    fn into_labels(self) -> (r: Vec<Label>) {
        labels_of(self)
    }
}

impl<P: ToLabel, const N: usize> IntoLabels for &[P; N] {
    open spec fn labels_model(self) -> Seq<LabelModel> {
        source_models(self@)
    }

    fn into_labels(self) -> (r: Vec<Label>) {
        let mut out: Vec<Label> = Vec::new();
        let mut i: usize = 0;
        while i < N
            invariant
                i <= N,
                self@.len() == N,
                out.len() == i,
                forall|j: int| 0 <= j < i ==> out[j]@ == self@[j].label_model(),
            decreases N - i,
        {
            out.push(self[i].to_label());
            i += 1;
        }
        assert(label_models(out@) =~= source_models(self@));
        out
    }
}

impl Key {
    /// The name of this key as it is stored.
    pub closed spec fn scoped_name(&self) -> ScopedString {
        self.name
    }

    /// Creates a `Key` from a name: its name is what `name` converts into.  The key
    /// has no labels.
    pub fn from_name<N: Into<ScopedString>>(name: N) -> (r: Key)
        ensures
            call_ensures(N::into, (name,), r.scoped_name()),
            r@ == (KeyModel { name: r.scoped_name()@, labels: None }),
    {
        Key { name: name.into(), labels: None }
    }

    /// Creates a `Key` from a name and labels: its name is what `name` converts
    /// into.  The labels keep their order.
    pub fn from_name_and_labels<N: Into<ScopedString>, L: IntoLabels>(name: N, labels: L) -> (r: Key)
        ensures
            call_ensures(N::into, (name,), r.scoped_name()),
            r@ == (KeyModel { name: r.scoped_name()@, labels: Some(labels.labels_model()) }),
    {
        Key { name: name.into(), labels: Some(labels.into_labels()) }
    }

    /// Adds a new set of labels to this key.
    ///
    /// New labels are appended to any existing labels; a key without labels gets
    /// the new ones as its list.
    pub fn add_labels<L: IntoLabels>(&mut self, new_labels: L)
        ensures
            final(self)@.name == old(self)@.name,
            final(self).scoped_name() == old(self).scoped_name(),
            final(self)@.labels == Some(
                match old(self)@.labels {
                    Some(existing) => existing + new_labels.labels_model(),
                    None => new_labels.labels_model(),
                },
            ),
    {
        let mut added = new_labels.into_labels();
        let mut labels = match self.labels.take() {
            Some(existing) => existing,
            None => Vec::new(),
        };
        let ghost before = labels@;
        let ghost extra = added@;
        labels.append(&mut added);
        assert(label_models(labels@) =~= label_models(before) + label_models(extra));
        self.labels = Some(labels);
    }

    /// Name of this key.
    pub fn name(&self) -> (r: ScopedString)
        ensures
            r@ == self@.name,
    {
        scoped_clone(&self.name)
    }

    /// Labels of this key, in order; none if the key has no labels.
    pub fn labels(&self) -> (r: &[Label])
        ensures
            label_models(r@) == (match self@.labels {
                Some(labels) => labels,
                None => Seq::<LabelModel>::empty(),
            }),
    {
        match &self.labels {
            Some(labels) => labels.as_slice(),
            None => {
                let none: &[Label] = &[];
                assert(label_models(none@) =~= Seq::<LabelModel>::empty());
                none
            },
        }
    }

    /// This key in words: `Key(name)` if it has no labels, else `Key(name, [..])`
    /// with each label as `key = value`.
    pub fn to_string(&self) -> (r: String)
        ensures
            r@ == rendered_key(self@),
    {
        let mut out = String::new();
        out.append("Key(");
        out.append(scoped_str(&self.name));
        match &self.labels {
            None => {
                out.append(")");
            },
            Some(labels) => {
                out.append(", [");
                let ghost head = out@;
                let mut i: usize = 0;
                while i < labels.len()
                    invariant
                        i <= labels.len(),
                        out@ == head + rendered_labels(label_models(labels@).take(i as int)),
                    decreases labels.len() - i,
                {
                    let ghost done = label_models(labels@).take(i as int);
                    let ghost next = label_models(labels@).take(i + 1);
                    proof {
                        assert(next.drop_last() =~= done);
                        assert(next.last() == labels[i as int]@);
                    }
                    if i > 0 {
                        out.append(", ");
                    }
                    out.append(labels[i].key());
                    out.append(" = ");
                    out.append(labels[i].value());
                    proof {
                        if i == 0 {
                            assert(done =~= Seq::<LabelModel>::empty());
                            assert(out@ =~= head + rendered_labels(next));
                        } else {
                            assert(out@ =~= head + rendered_labels(next));
                        }
                    }
                    i += 1;
                }
                assert(label_models(labels@).take(labels.len() as int) =~= label_models(labels@));
                out.append("])");
                assert(out@ =~= rendered_key(self@));
            },
        }
        assert(out@ =~= rendered_key(self@));
        out
    }

    /// Maps the name of this `Key` to a new name: what `f` makes of the old name,
    /// converted.  The labels stay as they are.
    pub fn map_name<S: Into<ScopedString>, F: FnOnce(ScopedString) -> S>(self, f: F) -> (r: Key)
        requires
            call_requires(f, (self.scoped_name(),)),
        ensures
            exists|mapped: S|
                call_ensures(f, (self.scoped_name(),), mapped) && call_ensures(
                    S::into,
                    (mapped,),
                    r.scoped_name(),
                ),
            r@.name == r.scoped_name()@,
            r@.labels == self@.labels,
    {
        let mapped = f(self.name);
        let ghost made = mapped;
        let name: ScopedString = mapped.into();
        assert(call_ensures(S::into, (made,), name));
        Key { name, labels: self.labels }
    }

    /// Consumes this `Key`, returning the name and any labels.
    pub fn into_parts(self) -> (r: (ScopedString, Option<Vec<Label>>))
        ensures
            r.0 == self.scoped_name(),
            r.0@ == self@.name,
            optional_label_models(r.1) == self@.labels,
    {
        (self.name, self.labels)
    }
}

impl From<ScopedString> for Key {
    /// A key with the given name and no labels.
    fn from(name: ScopedString) -> (r: Key)
        ensures
            r@ == (KeyModel { name: name@, labels: None }),
    {
        Key { name, labels: None }
    }
}

impl FromSpecImpl<ScopedString> for Key {
    open spec fn obeys_from_spec() -> bool {
        true
    }

    closed spec fn from_spec(name: ScopedString) -> Key {
        Key { name, labels: None }
    }
}

impl From<&'static str> for Key {
    /// A key with the given name and no labels.  The name is borrowed, not copied.
    fn from(name: &'static str) -> (r: Key)
        ensures
            r@ == (KeyModel { name: name@, labels: None }),
    {
        Key { name: Cow::Borrowed(name), labels: None }
    }
}

impl FromSpecImpl<&'static str> for Key {
    open spec fn obeys_from_spec() -> bool {
        true
    }

    closed spec fn from_spec(name: &'static str) -> Key {
        Key { name: Cow::Borrowed(name), labels: None }
    }
}

impl From<String> for Key {
    /// A key with the given name and no labels.
    fn from(name: String) -> (r: Key)
        ensures
            r@ == (KeyModel { name: name@, labels: None }),
    {
        Key { name: Cow::Owned(name), labels: None }
    }
}

impl FromSpecImpl<String> for Key {
    open spec fn obeys_from_spec() -> bool {
        true
    }

    closed spec fn from_spec(name: String) -> Key {
        Key { name: Cow::Owned(name), labels: None }
    }
}

impl<N: Into<ScopedString>, L: IntoLabels> From<(N, L)> for Key {
    /// A key with the name that the pair's first part converts into, and with the
    /// labels of its second part, in order.
    fn from(parts: (N, L)) -> (r: Key)
        ensures
            call_ensures(N::into, (parts.0,), r.scoped_name()),
            r@ == (KeyModel { name: r.scoped_name()@, labels: Some(parts.1.labels_model()) }),
    {
        Key::from_name_and_labels(parts.0, parts.1)
    }
}

impl<N: Into<ScopedString>, L: IntoLabels> FromSpecImpl<(N, L)> for Key {
    /// The conversion of the name and the vector that holds the labels are not
    /// functions of the pair alone, so no one key is named as the result; what
    /// `from` returns is stated by its own clauses.
    open spec fn obeys_from_spec() -> bool {
        false
    }

    open spec fn from_spec(parts: (N, L)) -> Key {
        choose|key: Key|
            call_ensures(N::into, (parts.0,), key.scoped_name()) && key@ == (KeyModel {
                name: key.scoped_name()@,
                labels: Some(parts.1.labels_model()),
            })
    }
}

impl<K: Into<ScopedString>, V: Into<ScopedString>> From<(K, V)> for Label {
    /// A label whose key is what the pair's first part converts into, and whose
    /// value what the second part converts into.
    fn from(pair: (K, V)) -> (r: Label)
        ensures
            call_ensures(K::into, (pair.0,), r.scoped_key()),
            call_ensures(V::into, (pair.1,), r.scoped_value()),
            r@ == (LabelModel { key: r.scoped_key()@, value: r.scoped_value()@ }),
    {
        Label::new(pair.0, pair.1)
    }
}

impl<K: Into<ScopedString>, V: Into<ScopedString>> FromSpecImpl<(K, V)> for Label {
    /// The conversions of the two parts are not functions of the pair alone, so no
    /// one label is named as the result; what `from` returns is stated by its own
    /// clauses.
    open spec fn obeys_from_spec() -> bool {
        false
    }

    open spec fn from_spec(pair: (K, V)) -> Label {
        choose|label: Label|
            call_ensures(K::into, (pair.0,), label.scoped_key()) && call_ensures(
                V::into,
                (pair.1,),
                label.scoped_value(),
            )
    }
}

/// Whether `label` is what clones of the two parts of `pair` may convert into.
pub open spec fn made_of_clones<K: Into<ScopedString> + Clone, V: Into<ScopedString> + Clone>(
    pair: &(K, V),
    label: Label,
) -> bool {
    exists|key: K, value: V|
        #![trigger call_ensures(K::clone, (&pair.0,), key), call_ensures(V::clone, (&pair.1,), value)]
        call_ensures(K::clone, (&pair.0,), key) && call_ensures(K::into, (key,), label.scoped_key())
            && call_ensures(V::clone, (&pair.1,), value) && call_ensures(
            V::into,
            (value,),
            label.scoped_value(),
        )
}

impl<'a, K: Into<ScopedString> + Clone, V: Into<ScopedString> + Clone> From<&'a (K, V)> for Label {
    /// A label whose key is what a clone of the pair's first part converts into, and
    /// whose value what a clone of the second part converts into.
    fn from(pair: &'a (K, V)) -> (r: Label)
        ensures
            made_of_clones(pair, r),
            r@ == (LabelModel { key: r.scoped_key()@, value: r.scoped_value()@ }),
    {
        let key = pair.0.clone();
        let value = pair.1.clone();
        let ghost made = (key, value);
        let r = Label::new(key, value);
        assert(call_ensures(K::clone, (&pair.0,), made.0) && call_ensures(
            K::into,
            (made.0,),
            r.scoped_key(),
        ) && call_ensures(V::clone, (&pair.1,), made.1) && call_ensures(
            V::into,
            (made.1,),
            r.scoped_value(),
        ));
        r
    }
}

impl<'a, K: Into<ScopedString> + Clone, V: Into<ScopedString> + Clone> FromSpecImpl<&'a (K, V)> for Label {
    /// Neither the clones nor their conversions are functions of the pair alone, so
    /// no one label is named as the result; what `from` returns is stated by its own
    /// clauses.
    open spec fn obeys_from_spec() -> bool {
        false
    }

    open spec fn from_spec(pair: &'a (K, V)) -> Label {
        choose|label: Label| made_of_clones(pair, label)
    }
}

/// Labels are not normalised.  A key without labels differs from every key with
/// labels, also from one with an empty list; and two keys with the same name whose
/// label lists differ, be it only in their order, are different keys.
pub proof fn lemma_labels_tell_keys_apart(name: Seq<char>, first: Seq<LabelModel>, second: Seq<LabelModel>)
    ensures
        (KeyModel { name, labels: None }) != (KeyModel { name, labels: Some(first) }),
        first != second ==> (KeyModel { name, labels: Some(first) }) != (KeyModel {
            name,
            labels: Some(second),
        }),
        forall|a: LabelModel, b: LabelModel| a != b ==> seq![a, b] != seq![b, a],
{
    assert forall|a: LabelModel, b: LabelModel| a != b implies seq![a, b] != seq![b, a] by {
        assert(seq![a, b][0] == a);
        assert(seq![b, a][0] == b);
    }
}

} // verus!
