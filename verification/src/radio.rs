use crate::direction::AppDirection;
use crate::tools::ToolAvailability;
use vstd::prelude::*;
use vstd::string::StringExecFns;

verus! {

/// A value type that may stand in a radio field: a closed set of variants with
/// a declared default, a display name, and a per-variant selectability test
/// driven by the injected tool-availability record.
pub trait RadioOptionValue: Sized + Copy {
    /// All variants, in declaration order.
    spec fn spec_all() -> Seq<Self>;

    /// The declared default variant.
    spec fn spec_default() -> Self;

    /// Whether this variant may appear in the cycle, given which tools are available.
    spec fn spec_selectable(self, tools: Map<Seq<char>, bool>) -> bool;

    /// The display name of this variant.
    spec fn spec_label(self) -> Seq<char>;

    fn all_values() -> (r: Vec<Self>)
        ensures
            r@ == Self::spec_all(),
    ;

    fn default_value() -> (r: Self)
        ensures
            r == Self::spec_default(),
    ;

    fn selectable(&self, tools: &ToolAvailability) -> (r: bool)
        ensures
            r == self.spec_selectable(tools@),
    ;

    fn label(&self) -> (r: String)
        ensures
            r@ == self.spec_label(),
    ;

    fn same(&self, other: &Self) -> (r: bool)
        ensures
            r == (*self == *other),
    ;
}

/// The selectability predicate for one tool-availability record.
pub open spec fn selectable_pred<V: RadioOptionValue>(tools: Map<Seq<char>, bool>) -> spec_fn(
    V,
) -> bool {
    |v: V| v.spec_selectable(tools)
}

/// The selectable variants, in declaration order: the filtered list a radio
/// field cycles through.
pub open spec fn spec_options<V: RadioOptionValue>(tools: Map<Seq<char>, bool>) -> Seq<V> {
    V::spec_all().filter(selectable_pred(tools))
}

/// A cyclic single-selection cursor over the selectable variants of `V`.
///
/// The filtered list is computed once, from the tool-availability record given
/// at construction; that record is read-only for the life of the form, so the
/// stored list is the same list a recomputation would yield.
pub struct RadioOption<V> {
    /// The selected variant: always the entry of `options` under the cursor.
    pub value: V,
    /// The filtered list of selectable variants, fixed at construction.
    pub options: Vec<V>,
    /// The cursor position into `options`.
    pub id: usize,
}

impl<V: RadioOptionValue> RadioOption<V> {
    /// Well-formed: the cursor indexes into the non-empty filtered list and the
    /// selected value is the entry it points at.
    pub open spec fn wf(self) -> bool {
        &&& 0 < self.options@.len()
        &&& (self.id as int) < self.options@.len()
        &&& self.value == self.options@[self.id as int]
    }

    /// Construct the cursor for `V`'s default value: the filtered list is built
    /// in declaration order, and the cursor starts at the first occurrence of
    /// the default, or at zero when the default is not selectable.
    ///
    /// An empty filtered list is a broken form definition; every value type
    /// must keep at least one variant selectable.
    pub fn default_for(tools: &ToolAvailability) -> (r: Self)
        requires
            spec_options::<V>(tools@).len() > 0,
        ensures
            r.wf(),
            r.options@ == spec_options::<V>(tools@),
            spec_options::<V>(tools@).contains(V::spec_default()) ==> {
                &&& r.options@[r.id as int] == V::spec_default()
                &&& forall|k: int|
                    0 <= k < r.id ==> r.options@[k] != V::spec_default()
            },
            !spec_options::<V>(tools@).contains(V::spec_default()) ==> r.id == 0,
            r.value == r.options@[r.id as int],
    {
        let all: Vec<V> = V::all_values();
        let mut opts: Vec<V> = Vec::new();
        let mut i: usize = 0;
        while i < all.len()
            invariant
                i <= all@.len(),
                all@ == V::spec_all(),
                opts@ == V::spec_all().take(i as int).filter(selectable_pred::<V>(tools@)),
            decreases all@.len() - i,
        {
            let ghost prefix = V::spec_all().take(i as int);
            let v = all[i];
            if v.selectable(tools) {
                opts.push(v);
            }
            proof {
                assert(V::spec_all().take(i + 1) =~= prefix.push(v));
                prefix.lemma_filter_push(v, selectable_pred::<V>(tools@));
            }
            i += 1;
        }
        proof {
            assert(V::spec_all().take(all@.len() as int) =~= V::spec_all());
        }
        let defv = V::default_value();
        let mut id: usize = 0;
        let mut matched = false;
        let mut j: usize = 0;
        while j < opts.len()
            invariant
                j <= opts@.len(),
                opts@ == spec_options::<V>(tools@),
                defv == V::spec_default(),
                !matched ==> id == 0,
                !matched ==> forall|k: int| 0 <= k < j ==> opts@[k] != V::spec_default(),
                matched ==> (id as int) < opts@.len() && opts@[id as int] == V::spec_default(),
                matched ==> forall|k: int| 0 <= k < id ==> opts@[k] != V::spec_default(),
            decreases opts@.len() - j,
        {
            if !matched && opts[j].same(&defv) {
                id = j;
                matched = true;
            }
            j += 1;
        }
        proof {
            if !matched && spec_options::<V>(tools@).contains(V::spec_default()) {
                let w = choose|w: int|
                    0 <= w < opts@.len() && opts@[w] == V::spec_default();
                assert(opts@[w] != V::spec_default());
            }
        }
        let value = opts[id];
        RadioOption { value, options: opts, id }
    }

    /// The count of selectable variants.
    pub fn length(&self) -> (r: usize)
        ensures
            r == self.options@.len(),
    {
        self.options.len()
    }

    /// Advance the cursor to the next selectable variant, with wraparound.
    pub fn next(&mut self)
        requires
            old(self).wf(),
        ensures
            final(self).wf(),
            final(self).options@ == old(self).options@,
            final(self).id == (old(self).id + 1) % (
            old(self).options@.len() as int),
            final(self).value == final(self).options@[final(self).id as int],
    {
        let n = self.options.len();
        proof {
            crate::loop_number::lemma_wrap_formulas(self.id, n);
        }
        self.id = AppDirection::Next.get_counter(Some(self.id), n);
        self.value = self.options[self.id];
    }

    /// Step the cursor back to the previous selectable variant, with wraparound.
    pub fn prev(&mut self)
        requires
            old(self).wf(),
        ensures
            final(self).wf(),
            final(self).options@ == old(self).options@,
            final(self).id == (old(self).id + old(self).options@.len() - 1)
                % (old(self).options@.len() as int),
            final(self).value == final(self).options@[final(self).id as int],
    {
        let n = self.options.len();
        proof {
            crate::loop_number::lemma_wrap_formulas(self.id, n);
        }
        self.id = AppDirection::Prev.get_counter(Some(self.id), n);
        self.value = self.options[self.id];
    }

    /// The rendering of one cycle position: a filled marker on the cursor's
    /// position, an empty marker elsewhere, followed by the variant's name.
    pub fn get_symbol(&self, curr: usize) -> (r: String)
        requires
            curr < self.options@.len(),
        ensures
            r@ == (if curr == self.id {
                "◉ "@
            } else {
                "○ "@
            }) + self.options@[curr as int].spec_label(),
    {
        let marker = if curr == self.id {
            "◉ "
        } else {
            "○ "
        };
        let mut s = marker.to_owned();
        s.append(self.options[curr].label().as_str());
        s
    }
}

/// A radio cycle stays non-empty, so some variant must stay selectable; this
/// holds whenever one selectable variant exists among `V`'s variants.
pub proof fn lemma_options_nonempty<V: RadioOptionValue>(tools: Map<Seq<char>, bool>, i: int)
    requires
        0 <= i < V::spec_all().len(),
        V::spec_all()[i].spec_selectable(tools),
    ensures
        spec_options::<V>(tools).len() > 0,
{
    let v = V::spec_all()[i];
    assert(V::spec_all().contains(v));
    V::spec_all().lemma_filter_contains_rev(selectable_pred::<V>(tools), v);
    let opts = spec_options::<V>(tools);
    assert(opts.contains(v));
    let w = choose|w: int| 0 <= w < opts.len() && opts[w] == v;
}

} // verus!
