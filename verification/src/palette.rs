//! The palette that a declaration compiles to: a fixed collection of
//! colours that keeps the order of the declaration and answers to names.

use vstd::prelude::*;
use crate::color::{Color, ColorView};
use crate::decl::{declaration, ColorDef, ColorDefView, DeclError, PaletteDef, PaletteDefView};
use crate::names::{
    lookup_key,
    lower_snake,
    normalize_color_name,
    to_lower_snake_case,
    to_upper_snake_case,
    upper_snake,
};
use crate::token::Token;

verus! {

/// The place of the first of `labels`, from place `from` on, that is
/// `wanted`.
pub open spec fn first_at(labels: Seq<Seq<char>>, wanted: Seq<char>, from: int) -> Option<int>
    decreases labels.len() - from,
{
    if from < 0 || from >= labels.len() {
        None
    } else if labels[from] == wanted {
        Some(from)
    } else {
        first_at(labels, wanted, from + 1)
    }
}

/// What [`first_at`] gives is a place of `wanted` with none before it, from
/// `from` on; it gives none only where there is no such place.
pub proof fn lemma_first_at(labels: Seq<Seq<char>>, wanted: Seq<char>, from: int)
    requires
        0 <= from,
    ensures
        match first_at(labels, wanted, from) {
            Some(i) => {
                &&& from <= i < labels.len()
                &&& labels[i] == wanted
                &&& forall|j: int| from <= j < i ==> labels[j] != wanted
            },
            None => forall|j: int| from <= j < labels.len() ==> labels[j] != wanted,
        },
    decreases labels.len() - from,
{
    if from < labels.len() && labels[from] != wanted {
        lemma_first_at(labels, wanted, from + 1);
    }
}

impl PaletteDefView {
    /// A lookup goes by the key of the name alone: two names with one key,
    /// such as names that differ in case or in punctuation only, give the same
    /// colour or both none.
    pub proof fn lemma_get_by_key(self, a: Seq<char>, b: Seq<char>)
        requires
            lookup_key(a) == lookup_key(b),
        ensures
            self.get(a) == self.get(b),
    {
    }

    /// A lookup gives the first colour, in the order of the declaration,
    /// whose name has the key of the name asked for, and none only where no
    /// colour has that key.
    pub proof fn lemma_get_first(self, name: Seq<char>)
        ensures
            match self.get(name) {
                Some(value) => exists|i: int|
                    {
                        &&& 0 <= i < self.colors.len()
                        &&& lookup_key(#[trigger] self.colors[i].name) == lookup_key(name)
                        &&& value == self.colors[i].value
                        &&& forall|j: int|
                            0 <= j < i ==> lookup_key(#[trigger] self.colors[j].name)
                                != lookup_key(name)
                    },
                None => forall|j: int|
                    0 <= j < self.colors.len() ==> lookup_key(#[trigger] self.colors[j].name)
                        != lookup_key(name),
            },
    {
        let keys = self.keys();
        lemma_first_at(keys, lookup_key(name), 0);
        match first_at(keys, lookup_key(name), 0) {
            Some(i) => {
                assert(lookup_key(self.colors[i].name) == keys[i]);
                assert forall|j: int| 0 <= j < i implies lookup_key(
                    #[trigger] self.colors[j].name,
                ) != lookup_key(name) by {
                    assert(keys[j] != lookup_key(name));
                }
            },
            None => {
                assert forall|j: int| 0 <= j < self.colors.len() implies lookup_key(
                    #[trigger] self.colors[j].name,
                ) != lookup_key(name) by {
                    assert(keys[j] != lookup_key(name));
                }
            },
        }
    }

    /// Every colour is found under the name it was declared with, and under
    /// any name with the same key, unless a colour declared before it has
    /// that key: then that one is found.
    pub proof fn lemma_get_declared(self, i: int, name: Seq<char>)
        requires
            0 <= i < self.colors.len(),
            lookup_key(name) == lookup_key(self.colors[i].name),
        ensures
            self.get(name) is Some,
            (forall|j: int|
                0 <= j < i ==> lookup_key(#[trigger] self.colors[j].name) != lookup_key(name))
                ==> self.get(name) == Some(self.colors[i].value),
    {
        let keys = self.keys();
        lemma_first_at(keys, lookup_key(name), 0);
        assert(keys[i] == lookup_key(name));
        if forall|j: int|
            0 <= j < i ==> lookup_key(#[trigger] self.colors[j].name) != lookup_key(name) {
            let found = first_at(keys, lookup_key(name), 0)->Some_0;
            if found < i {
                assert(lookup_key(self.colors[found].name) == keys[found]);
            }
        }
    }

    /// A palette has as many values, keys, constants and accessors as
    /// colours. A palette without colours has no values, and no name finds
    /// anything in it.
    pub proof fn lemma_counts(self, name: Seq<char>)
        ensures
            self.values().len() == self.colors.len(),
            self.keys().len() == self.colors.len(),
            self.constants().len() == self.colors.len(),
            self.accessors().len() == self.colors.len(),
            self.colors.len() == 0 ==> self.values() == Seq::<ColorView>::empty() && self.get(name)
                is None && self.constant(name) is None && self.accessor(name) is None,
    {
        if self.colors.len() == 0 {
            assert(self.values() =~= Seq::<ColorView>::empty());
        }
    }

    /// The colours, in the order of the declaration.
    pub open spec fn values(self) -> Seq<ColorView> {
        self.colors.map_values(|d: ColorDefView| d.value)
    }

    /// The lookup key of each colour.
    pub open spec fn keys(self) -> Seq<Seq<char>> {
        self.colors.map_values(|d: ColorDefView| lookup_key(d.name))
    }

    /// The constant name of each colour.
    pub open spec fn constants(self) -> Seq<Seq<char>> {
        self.colors.map_values(|d: ColorDefView| upper_snake(d.name))
    }

    /// The accessor name of each colour.
    pub open spec fn accessors(self) -> Seq<Seq<char>> {
        self.colors.map_values(|d: ColorDefView| lower_snake(d.name))
    }

    /// The colour at a place, if there is a place.
    pub open spec fn pick(self, place: Option<int>) -> Option<ColorView> {
        match place {
            Some(i) => Some(self.colors[i].value),
            None => None,
        }
    }

    /// The colour for a name: the first, in the order of the declaration,
    /// whose lookup key is that of `name`.
    pub open spec fn get(self, name: Seq<char>) -> Option<ColorView> {
        self.pick(first_at(self.keys(), lookup_key(name), 0))
    }

    /// The colour for the name of a constant: the first whose name in upper
    /// snake case is `ident`.
    pub open spec fn constant(self, ident: Seq<char>) -> Option<ColorView> {
        self.pick(first_at(self.constants(), ident, 0))
    }

    /// The colour for the name of an accessor: the first whose name in lower
    /// snake case is `ident`.
    pub open spec fn accessor(self, ident: Seq<char>) -> Option<ColorView> {
        self.pick(first_at(self.accessors(), ident, 0))
    }
}

/// One colour of a palette, with the names derived from the name it was
/// declared with.
#[derive(Debug)]
pub struct PaletteColor {
    name: String,
    constant: String,
    accessor: String,
    key: String,
    value: Color,
}

impl View for PaletteColor {
    type V = ColorDefView;

    closed spec fn view(&self) -> ColorDefView {
        ColorDefView { name: self.name@, value: self.value@ }
    }
}

impl PaletteColor {
    #[verifier::type_invariant]
    spec fn names_derived(self) -> bool {
        &&& self.constant@ == upper_snake(self.name@)
        &&& self.accessor@ == lower_snake(self.name@)
        &&& self.key@ == lookup_key(self.name@)
    }

    /// The colour of a palette for a declared colour.
    pub fn new(def: &ColorDef) -> (color: PaletteColor)
        ensures
            color@ == def@,
    {
        PaletteColor {
            name: def.name.clone(),
            constant: to_upper_snake_case(def.name.as_str()),
            accessor: to_lower_snake_case(def.name.as_str()),
            key: normalize_color_name(def.name.as_str()),
            value: def.value,
        }
    }

    /// The name that the colour was declared with.
    pub fn name(&self) -> (name: &str)
        ensures
            name@ == self@.name,
    {
        self.name.as_str()
    }

    /// The name of the colour's constant: the declared name in upper snake case.
    pub fn constant(&self) -> (ident: &str)
        ensures
            ident@ == upper_snake(self@.name),
    {
        proof {
            use_type_invariant(self);
        }
        self.constant.as_str()
    }

    /// The name of the colour's accessor: the declared name in lower snake case.
    pub fn accessor(&self) -> (ident: &str)
        ensures
            ident@ == lower_snake(self@.name),
    {
        proof {
            use_type_invariant(self);
        }
        self.accessor.as_str()
    }

    /// The key under which the colour is looked up.
    pub fn key(&self) -> (key: &str)
        ensures
            key@ == lookup_key(self@.name),
    {
        proof {
            use_type_invariant(self);
        }
        self.key.as_str()
    }

    /// The colour itself.
    pub fn value(&self) -> (value: Color)
        ensures
            value@ == self@.value,
    {
        self.value
    }
}

impl Clone for PaletteColor {
    fn clone(&self) -> (color: PaletteColor)
        ensures
            color@ == self@,
    {
        proof {
            use_type_invariant(self);
        }
        PaletteColor {
            name: self.name.clone(),
            constant: self.constant.clone(),
            accessor: self.accessor.clone(),
            key: self.key.clone(),
            value: self.value,
        }
    }
}

/// Which of a colour's names a lookup goes by.
#[derive(Clone, Copy, Debug, PartialEq, Eq, Structural)]
enum Label {
    Key,
    Constant,
    Accessor,
}

/// A palette: a name and colours, in the order in which they were declared.
#[derive(Debug)]
pub struct Palette {
    name: String,
    colors: Vec<PaletteColor>,
}

/// The colours of a palette as plain values, in the same order.
spec fn palette_views(colors: Seq<PaletteColor>) -> Seq<ColorDefView> {
    colors.map_values(|c: PaletteColor| c@)
}

impl View for Palette {
    type V = PaletteDefView;

    closed spec fn view(&self) -> PaletteDefView {
        PaletteDefView { name: self.name@, colors: palette_views(self.colors@) }
    }
}

impl Clone for Palette {
    fn clone(&self) -> (palette: Palette)
        ensures
            palette@ == self@,
    {
        let mut colors: Vec<PaletteColor> = Vec::new();
        let mut i: usize = 0;
        while i < self.colors.len()
            invariant
                i <= self.colors.len(),
                palette_views(colors@) == self@.colors.take(i as int),
            decreases self.colors.len() - i,
        {
            let ghost before = colors@;
            let color = self.colors[i].clone();
            colors.push(color);
            proof {
                assert(self@.colors.take(i + 1) =~= self@.colors.take(i as int).push(color@));
                assert(palette_views(before.push(color)) =~= palette_views(before).push(color@));
            }
            i += 1;
        }
        assert(self@.colors.take(i as int) =~= self@.colors);
        Palette { name: self.name.clone(), colors }
    }
}

impl Palette {
    /// The palette for a declaration: the same name and the same colours in
    /// the same order.
    pub fn new(def: &PaletteDef) -> (palette: Palette)
        ensures
            palette@ == def@,
    {
        let mut colors: Vec<PaletteColor> = Vec::new();
        let mut i: usize = 0;
        while i < def.colors.len()
            invariant
                i <= def.colors.len(),
                palette_views(colors@) == def@.colors.take(i as int),
            decreases def.colors.len() - i,
        {
            let ghost before = colors@;
            let color = PaletteColor::new(&def.colors[i]);
            colors.push(color);
            proof {
                assert(def@.colors[i as int] == def.colors@[i as int]@);
                assert(def@.colors.take(i + 1) =~= def@.colors.take(i as int).push(color@));
                assert(palette_views(before.push(color)) =~= palette_views(before).push(color@));
            }
            i += 1;
        }
        assert(def@.colors.take(i as int) =~= def@.colors);
        Palette { name: def.name.clone(), colors }
    }

    /// The name of the palette.
    pub fn name(&self) -> (name: &str)
        ensures
            name@ == self@.name,
    {
        self.name.as_str()
    }

    /// The number of colours.
    pub fn len(&self) -> (n: usize)
        ensures
            n == self@.colors.len(),
            n == self@.values().len(),
    {
        self.colors.len()
    }

    /// Whether the palette has no colours.
    pub fn is_empty(&self) -> (b: bool)
        ensures
            b == (self@.colors.len() == 0),
    {
        self.colors.len() == 0
    }

    /// The colour at place `i`, with its names, if the palette has that many.
    pub fn color(&self, i: usize) -> (color: Option<&PaletteColor>)
        ensures
            color is Some <==> i < self@.colors.len(),
            color matches Some(c) ==> c@ == self@.colors[i as int],
    {
        if i < self.colors.len() {
            Some(&self.colors[i])
        } else {
            None
        }
    }

    /// All colours, in the order of the declaration.
    pub fn all(&self) -> (colors: Vec<Color>)
        ensures
            colors.deep_view() == self@.values(),
            colors@.len() == self@.colors.len(),
    {
        let mut colors: Vec<Color> = Vec::new();
        let mut i: usize = 0;
        while i < self.colors.len()
            invariant
                i <= self.colors.len(),
                colors.deep_view() == self@.values().take(i as int),
            decreases self.colors.len() - i,
        {
            let ghost before = colors.deep_view();
            let value = self.colors[i].value;
            colors.push(value);
            proof {
                assert(self@.values()[i as int] == value@);
                assert(self@.values().take(i + 1) =~= self@.values().take(i as int).push(value@));
                assert(colors.deep_view() =~= before.push(value@));
            }
            i += 1;
        }
        assert(self@.values().take(i as int) =~= self@.values());
        colors
    }

    /// A traversal of the colours from the first on. Each call starts anew,
    /// whatever was done with an earlier traversal.
    pub fn iter(&self) -> (it: PaletteIter<'_>)
        ensures
            it.remaining() == self@.values(),
            it.remaining().len() == self@.colors.len(),
    {
        assert(self@.values().skip(0) =~= self@.values());
        PaletteIter { palette: self, at: 0 }
    }

    /// The place of the first colour whose label of kind `label` is `wanted`.
    fn find(&self, label: Label, wanted: &String) -> (place: Option<usize>)
        ensures
            match place {
                Some(i) => i < self@.colors.len() && first_at(self.labels(label), wanted@, 0)
                    == Some(i as int),
                None => first_at(self.labels(label), wanted@, 0) is None,
            },
    {
        let ghost labels = self.labels(label);
        let mut i: usize = 0;
        while i < self.colors.len()
            invariant
                i <= self.colors.len(),
                labels == self.labels(label),
                labels.len() == self.colors@.len(),
                first_at(labels, wanted@, i as int) == first_at(labels, wanted@, 0),
            decreases self.colors.len() - i,
        {
            let color = &self.colors[i];
            proof {
                use_type_invariant(color);
            }
            let found = match label {
                Label::Key => color.key == *wanted,
                Label::Constant => color.constant == *wanted,
                Label::Accessor => color.accessor == *wanted,
            };
            if found {
                return Some(i);
            }
            i += 1;
        }
        None
    }

    /// The labels of kind `label` of the colours.
    spec fn labels(&self, label: Label) -> Seq<Seq<char>> {
        match label {
            Label::Key => self@.keys(),
            Label::Constant => self@.constants(),
            Label::Accessor => self@.accessors(),
        }
    }

    /// The colour at a place that [`Palette::find`] gave.
    fn at(&self, place: Option<usize>) -> (color: Option<Color>)
        requires
            place matches Some(i) ==> i < self@.colors.len(),
        ensures
            color.deep_view() == self@.pick(
                match place {
                    Some(i) => Some(i as int),
                    None => None,
                },
            ),
    {
        match place {
            Some(i) => Some(self.colors[i].value),
            None => None,
        }
    }

    /// The colour for a name, whatever its case and punctuation: the first,
    /// in the order of the declaration, whose lookup key is that of `name`.
    pub fn get(&self, name: &str) -> (color: Option<Color>)
        ensures
            color.deep_view() == self@.get(name@),
    {
        let key = normalize_color_name(name);
        let place = self.find(Label::Key, &key);
        self.at(place)
    }

    /// The colour for the name of a constant, such as `CUSTOM_COLOR`: the
    /// first whose declared name in upper snake case is `ident`.
    pub fn constant(&self, ident: &str) -> (color: Option<Color>)
        ensures
            color.deep_view() == self@.constant(ident@),
    {
        let wanted = ident.to_owned();
        let place = self.find(Label::Constant, &wanted);
        self.at(place)
    }

    /// The colour for the name of an accessor, such as `custom_color`: the
    /// first whose declared name in lower snake case is `ident`.
    pub fn accessor(&self, ident: &str) -> (color: Option<Color>)
        ensures
            color.deep_view() == self@.accessor(ident@),
    {
        let wanted = ident.to_owned();
        let place = self.find(Label::Accessor, &wanted);
        self.at(place)
    }
}

/// A traversal of a palette: its colours in the order of the declaration,
/// one at a time.
#[derive(Debug)]
pub struct PaletteIter<'a> {
    palette: &'a Palette,
    at: usize,
}

impl<'a> PaletteIter<'a> {
    #[verifier::type_invariant]
    spec fn in_range(self) -> bool {
        self.at <= self.palette.colors@.len()
    }

    /// The colours that the traversal has yet to give, in order.
    pub closed spec fn remaining(&self) -> Seq<ColorView> {
        self.palette@.values().skip(self.at as int)
    }

    /// The next colour, if one is left.
    pub fn next(&mut self) -> (color: Option<Color>)
        ensures
            old(self).remaining().len() == 0 ==> color is None && final(self).remaining() == old(
                self,
            ).remaining(),
            old(self).remaining().len() > 0 ==> color.deep_view() == Some(old(self).remaining()[0])
                && final(self).remaining() == old(self).remaining().drop_first(),
    {
        proof {
            use_type_invariant(&*self);
        }
        if self.at < self.palette.colors.len() {
            let value = self.palette.colors[self.at].value;
            proof {
                assert(self.palette@.values()[self.at as int] == value@);
                assert(self.palette@.values().skip(self.at + 1) =~= self.remaining().drop_first());
            }
            self.at = self.at + 1;
            Some(value)
        } else {
            None
        }
    }

    /// All colours that are left, in order.
    pub fn collect(self) -> (colors: Vec<Color>)
        ensures
            colors.deep_view() == self.remaining(),
            colors@.len() == self.remaining().len(),
    {
        proof {
            use_type_invariant(&self);
        }
        let mut colors: Vec<Color> = Vec::new();
        let mut i: usize = self.at;
        while i < self.palette.colors.len()
            invariant
                self.at <= i <= self.palette.colors.len(),
                colors.deep_view() == self.palette@.values().subrange(self.at as int, i as int),
            decreases self.palette.colors.len() - i,
        {
            let ghost before = colors.deep_view();
            let value = self.palette.colors[i].value;
            colors.push(value);
            proof {
                assert(self.palette@.values()[i as int] == value@);
                assert(self.palette@.values().subrange(self.at as int, i + 1) =~= before.push(
                    value@,
                ));
                assert(colors.deep_view() =~= before.push(value@));
            }
            i += 1;
        }
        assert(self.palette@.values().subrange(self.at as int, i as int) =~= self.remaining());
        colors
    }
}

impl IntoIterator for Palette {
    type Item = Color;

    type IntoIter = std::vec::IntoIter<Color>;

    /// A traversal of all colours, in the order of the declaration.
    fn into_iter(self) -> (it: std::vec::IntoIter<Color>)
        ensures
            vstd::std_specs::vec::into_iter_elts(it).map_values(|c: Color| c@) == self@.values(),
    {
        broadcast use vstd::std_specs::vec::axiom_spec_into_iter;

        let all = self.all();
        assert(all@.map_values(|c: Color| c@) =~= all.deep_view());
        all.into_iter()
    }
}

impl<'a> IntoIterator for &'a Palette {
    type Item = Color;

    type IntoIter = std::vec::IntoIter<Color>;

    /// A traversal of all colours, in the order of the declaration.
    fn into_iter(self) -> (it: std::vec::IntoIter<Color>)
        ensures
            vstd::std_specs::vec::into_iter_elts(it).map_values(|c: Color| c@) == self@.values(),
    {
        broadcast use vstd::std_specs::vec::axiom_spec_into_iter;

        let all = self.all();
        assert(all@.map_values(|c: Color| c@) =~= all.deep_view());
        all.into_iter()
    }
}

/// Compiles a declaration: reads the tokens and builds the palette that they
/// declare, or gives the first fault with its place.
pub fn palette(tokens: &[Token]) -> (res: Result<Palette, DeclError>)
    ensures
        match res {
            Ok(palette) => declaration(tokens@) == Ok::<PaletteDefView, DeclError>(palette@),
            Err(e) => declaration(tokens@) == Err::<PaletteDefView, DeclError>(e),
        },
{
    match PaletteDef::parse(tokens) {
        Ok(def) => Ok(Palette::new(&def)),
        Err(e) => Err(e),
    }
}

} // verus!
