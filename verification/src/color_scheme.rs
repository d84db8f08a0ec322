//! Color schemes: sixteen palette colors, a name, and the colors of
//! foreground, background and cursor.

use crate::color::{color_of_hex, Color, HexColorError};
use crate::ordered::{
    lemma_increasing_distinct, lemma_insert_keeps_order, locate, strictly_increasing,
};
use crate::text::texts;
use vstd::prelude::*;
use vstd::utf8::*;

verus! {

/// A color scheme as it is written down: every color in hexadecimal
/// notation.
#[derive(Debug)]
pub struct ColorSchemeText {
    pub color_01: String,
    pub color_02: String,
    pub color_03: String,
    pub color_04: String,
    pub color_05: String,
    pub color_06: String,
    pub color_07: String,
    pub color_08: String,
    pub color_09: String,
    pub color_10: String,
    pub color_11: String,
    pub color_12: String,
    pub color_13: String,
    pub color_14: String,
    pub color_15: String,
    pub color_16: String,
    pub name: String,
    pub foreground: String,
    pub background: String,
    pub cursor: String,
}

/// A color scheme.
#[derive(Debug)]
pub struct ColorScheme {
    pub colors: [Color; 16],
    pub name: String,
    pub foreground: Color,
    pub background: Color,
    pub cursor: Color,
}

/// What a color scheme holds.
pub struct ColorSchemeView {
    pub colors: Seq<Color>,
    pub name: Seq<char>,
    pub foreground: Color,
    pub background: Color,
    pub cursor: Color,
}

impl View for ColorScheme {
    type V = ColorSchemeView;

    open spec fn view(&self) -> ColorSchemeView {
        ColorSchemeView {
            colors: self.colors@,
            name: self.name@,
            foreground: self.foreground,
            background: self.background,
            cursor: self.cursor,
        }
    }
}

impl ColorSchemeText {
    /// The nineteen notations in the order in which they are read: the
    /// palette, then foreground, background and cursor.
    pub open spec fn hex_fields(self) -> Seq<Seq<char>> {
        seq![
            self.color_01@,
            self.color_02@,
            self.color_03@,
            self.color_04@,
            self.color_05@,
            self.color_06@,
            self.color_07@,
            self.color_08@,
            self.color_09@,
            self.color_10@,
            self.color_11@,
            self.color_12@,
            self.color_13@,
            self.color_14@,
            self.color_15@,
            self.color_16@,
            self.foreground@,
            self.background@,
            self.cursor@,
        ]
    }
}

/// The color that the text at place `index` denotes.
pub open spec fn field_color(fields: Seq<Seq<char>>, index: int) -> Result<Color, HexColorError> {
    color_of_hex(encode_utf8(fields[index]))
}

/// The first place from `from` on whose text is no color.
pub open spec fn first_bad_field(fields: Seq<Seq<char>>, from: int) -> Option<int>
    decreases fields.len() - from,
{
    if from < 0 || from >= fields.len() {
        None
    } else if field_color(fields, from) is Err {
        Some(from)
    } else {
        first_bad_field(fields, from + 1)
    }
}

/// The scheme that a written scheme denotes: every notation read as a
/// color, or the error of the first notation that is none.
#[verifier::opaque]
pub open spec fn scheme_of_text(text: ColorSchemeText) -> Result<ColorSchemeView, HexColorError> {
    let fields = text.hex_fields();
    match first_bad_field(fields, 0) {
        Some(bad) => Err(field_color(fields, bad)->Err_0),
        None => Ok(
            ColorSchemeView {
                colors: Seq::new(16, |i: int| field_color(fields, i)->Ok_0),
                name: text.name@,
                foreground: field_color(fields, 16)->Ok_0,
                background: field_color(fields, 17)->Ok_0,
                cursor: field_color(fields, 18)->Ok_0,
            },
        ),
    }
}

/// The schemes by name that a row of schemes gives when each is put in
/// turn under its name, a later one replacing an earlier one of that name.
pub open spec fn schemes_by_name(schemes: Seq<ColorSchemeView>) -> Map<Seq<char>, ColorSchemeView>
    decreases schemes.len(),
{
    if schemes.len() == 0 {
        Map::empty()
    } else {
        schemes_by_name(schemes.drop_last()).insert(schemes.last().name, schemes.last())
    }
}

/// The schemes that a row of written schemes denotes, or the error of the
/// first notation that is no color.
pub open spec fn schemes_of_texts(texts: Seq<ColorSchemeText>) -> Result<
    Seq<ColorSchemeView>,
    HexColorError,
>
    decreases texts.len(),
{
    if texts.len() == 0 {
        Ok(Seq::empty())
    } else {
        match schemes_of_texts(texts.drop_last()) {
            Err(e) => Err(e),
            Ok(schemes) => match scheme_of_text(texts.last()) {
                Err(e) => Err(e),
                Ok(scheme) => Ok(schemes.push(scheme)),
            },
        }
    }
}

fn same_color(a: &Color, b: &Color) -> (same: bool)
    ensures
        same == (*a == *b),
{
    a.r == b.r && a.g == b.g && a.b == b.b && a.a == b.a
}

/// Reads nineteen notations in turn and stops at the first that is no
/// color.
fn read_colors(sources: &[&String; 19]) -> (colors: Result<Vec<Color>, String>)
    ensures
        ({
            let fields = Seq::new(19, |k: int| sources@[k]@);
            match first_bad_field(fields, 0) {
                Some(bad) => colors is Err && colors->Err_0@ == field_color(
                    fields,
                    bad,
                )->Err_0.text(),
                None => colors is Ok && colors->Ok_0@.len() == 19 && forall|k: int|
                    0 <= k < 19 ==> field_color(fields, k) == Ok::<Color, HexColorError>(
                        #[trigger] colors->Ok_0@[k],
                    ),
            }
        }),
{
    let ghost fields = Seq::new(19, |k: int| sources@[k]@);
    let mut colors: Vec<Color> = Vec::new();
    let mut i: usize = 0;
    while i < 19
        invariant
            i <= 19,
            fields == Seq::new(19, |k: int| sources@[k]@),
            colors.len() == i,
            forall|k: int|
                0 <= k < i ==> field_color(fields, k) == Ok::<Color, HexColorError>(
                    #[trigger] colors@[k],
                ),
            first_bad_field(fields, 0) == first_bad_field(fields, i as int),
        decreases 19 - i,
    {
        match Color::from_hex(sources[i].as_str()) {
            Ok(c) => {
                colors.push(c);
            },
            Err(e) => {
                return Err(e);
            },
        }
        i += 1;
    }
    Ok(colors)
}

/// The scheme in use before one is chosen: a black palette and
/// background, a light grey foreground and a cyan cursor, under the name
/// "None".
pub open spec fn default_scheme() -> ColorSchemeView {
    ColorSchemeView {
        colors: Seq::new(16, |i: int| Color { r: 0, g: 0, b: 0, a: 255 }),
        name: "None"@,
        foreground: Color { r: 200, g: 200, b: 200, a: 255 },
        background: Color { r: 0, g: 0, b: 0, a: 255 },
        cursor: Color { r: 0, g: 200, b: 200, a: 255 },
    }
}

impl Default for ColorScheme {
    /// The scheme in use before one is chosen.
    fn default() -> (scheme: ColorScheme)
        ensures
            scheme@ == default_scheme(),
    {
        let black = Color::new(0, 0, 0);
        let colors = [
            black,
            black,
            black,
            black,
            black,
            black,
            black,
            black,
            black,
            black,
            black,
            black,
            black,
            black,
            black,
            black,
        ];
        let scheme = ColorScheme {
            colors,
            name: String::from_str("None"),
            foreground: Color::new(200, 200, 200),
            background: Color::new(0, 0, 0),
            cursor: Color::new(0, 200, 200),
        };
        assert(scheme@.colors =~= default_scheme().colors);
        scheme
    }
}

impl ColorScheme {
    /// Reads every notation of a written scheme. Fails with the sentence of
    /// `Color::from_hex` for the first notation that is no color.
    pub fn from_color_scheme_text(cs: ColorSchemeText) -> (scheme: Result<ColorScheme, String>)
        ensures
            match scheme_of_text(cs) {
                Ok(v) => scheme is Ok && scheme->Ok_0@ == v,
                Err(e) => scheme is Err && scheme->Err_0@ == e.text(),
            },
    {
        let sources: [&String; 19] = [
            &cs.color_01,
            &cs.color_02,
            &cs.color_03,
            &cs.color_04,
            &cs.color_05,
            &cs.color_06,
            &cs.color_07,
            &cs.color_08,
            &cs.color_09,
            &cs.color_10,
            &cs.color_11,
            &cs.color_12,
            &cs.color_13,
            &cs.color_14,
            &cs.color_15,
            &cs.color_16,
            &cs.foreground,
            &cs.background,
            &cs.cursor,
        ];
        let ghost fields = cs.hex_fields();
        proof {
            reveal(scheme_of_text);
            assert(fields =~= Seq::new(19, |k: int| sources@[k]@));
        }
        let colors = match read_colors(&sources) {
            Ok(colors) => colors,
            Err(e) => {
                return Err(e);
            },
        };
        let scheme = ColorScheme {
            colors: [
                colors[0],
                colors[1],
                colors[2],
                colors[3],
                colors[4],
                colors[5],
                colors[6],
                colors[7],
                colors[8],
                colors[9],
                colors[10],
                colors[11],
                colors[12],
                colors[13],
                colors[14],
                colors[15],
            ],
            name: cs.name,
            foreground: colors[16],
            background: colors[17],
            cursor: colors[18],
        };
        assert(scheme@.colors =~= Seq::new(16, |i: int| field_color(fields, i)->Ok_0));
        Ok(scheme)
    }

    /// Whether the two schemes hold the same name and colors.
    pub fn same_as(&self, other: &ColorScheme) -> (same: bool)
        ensures
            same == (self@ == other@),
    {
        let mut i: usize = 0;
        while i < 16
            invariant
                i <= 16,
                forall|k: int| 0 <= k < i ==> self.colors@[k] == other.colors@[k],
            decreases 16 - i,
        {
            if !same_color(&self.colors[i], &other.colors[i]) {
                return false;
            }
            i += 1;
        }
        assert(self.colors@ =~= other.colors@);
        self.name == other.name && same_color(&self.foreground, &other.foreground) && same_color(
            &self.background,
            &other.background,
        ) && same_color(&self.cursor, &other.cursor)
    }

    /// A copy of the scheme.
    pub fn duplicate(&self) -> (copy: ColorScheme)
        ensures
            copy@ == self@,
    {
        ColorScheme {
            colors: self.colors,
            name: self.name.clone(),
            foreground: self.foreground,
            background: self.background,
            cursor: self.cursor,
        }
    }

    /// Builds the schemes on offer from their written forms, by name. Of
    /// two schemes with one name the later stays. Fails as
    /// `from_color_scheme_text` does on the first scheme that cannot be read.
    pub fn read_default_schemes(texts: Vec<ColorSchemeText>) -> (catalog: Result<
        SchemeCatalog,
        String,
    >)
        ensures
            match schemes_of_texts(texts@) {
                Ok(schemes) => catalog is Ok && catalog->Ok_0.wf() && catalog->Ok_0@
                    == schemes_by_name(schemes),
                Err(e) => catalog is Err && catalog->Err_0@ == e.text(),
            },
    {
        let mut catalog = SchemeCatalog::new();
        let ghost mut done: Seq<ColorSchemeView> = Seq::empty();
        let ghost all = texts@;
        let n = texts.len();
        // The texts are taken from the back of a vector, so turn them round first.
        let mut pending = texts;
        let mut rest: Vec<ColorSchemeText> = Vec::new();
        while pending.len() > 0
            invariant
                pending.len() + rest.len() == n,
                n == all.len(),
                forall|k: int| 0 <= k < pending.len() ==> pending@[k] == all[k],
                forall|k: int| 0 <= k < rest.len() ==> rest@[k] == all[n - 1 - k],
            decreases pending.len(),
        {
            let t = pending.pop().unwrap();
            rest.push(t);
        }
        let mut i: usize = 0;
        while i < n
            invariant
                i <= n,
                n == all.len(),
                all == texts@,
                rest.len() == n - i,
                forall|k: int| 0 <= k < rest.len() ==> rest@[k] == all[n - 1 - k],
                catalog.wf(),
                schemes_of_texts(all.take(i as int)) == Ok::<Seq<ColorSchemeView>, HexColorError>(
                    done,
                ),
                catalog@ == schemes_by_name(done),
            decreases n - i,
        {
            let text = rest.pop().unwrap();
            assert(all.take(i + 1).drop_last() =~= all.take(i as int));
            match ColorScheme::from_color_scheme_text(text) {
                Ok(scheme) => {
                    proof {
                        let ghost next = done.push(scheme@);
                        assert(next.drop_last() =~= done);
                        done = next;
                    }
                    catalog.insert(scheme);
                },
                Err(e) => {
                    proof {
                        lemma_schemes_error_stays(all, i as int + 1);
                    }
                    return Err(e);
                },
            }
            i += 1;
        }
        assert(all.take(n as int) =~= all);
        Ok(catalog)
    }
}

/// Once a prefix of the written schemes fails, the whole row fails with
/// the same error.
pub proof fn lemma_schemes_error_stays(texts: Seq<ColorSchemeText>, k: int)
    requires
        0 <= k <= texts.len(),
        schemes_of_texts(texts.take(k)) is Err,
    ensures
        schemes_of_texts(texts) == schemes_of_texts(texts.take(k)),
    decreases texts.len(),
{
    if k == texts.len() {
        assert(texts.take(k) =~= texts);
    } else {
        assert(texts.drop_last().take(k) =~= texts.take(k));
        lemma_schemes_error_stays(texts.drop_last(), k);
    }
}

/// The color schemes on offer, by name and in the order of their names.
#[derive(Debug)]
pub struct SchemeCatalog {
    names: Vec<String>,
    schemes: Vec<ColorScheme>,
}

impl View for SchemeCatalog {
    type V = Map<Seq<char>, ColorSchemeView>;

    /// The scheme held under each name.
    open spec fn view(&self) -> Map<Seq<char>, ColorSchemeView> {
        Map::new(
            |name: Seq<char>| self.names().contains(name),
            |name: Seq<char>| self.schemes()[self.names().index_of(name)],
        )
    }
}

impl SchemeCatalog {
    /// The names, in the order of strings.
    pub closed spec fn names(&self) -> Seq<Seq<char>> {
        texts(self.names@)
    }

    /// The schemes, each at the place of its name.
    pub closed spec fn schemes(&self) -> Seq<ColorSchemeView> {
        self.schemes@.map_values(|s: ColorScheme| s@)
    }

    /// The names are increasing, and each scheme stands under its own name.
    pub open spec fn wf(&self) -> bool {
        &&& strictly_increasing(self.names())
        &&& self.names().len() == self.schemes().len()
        &&& forall|i: int| 0 <= i < self.names().len() ==> (#[trigger] self.schemes()[i]).name
            == self.names()[i]
    }

    /// A catalog without schemes.
    pub fn new() -> (catalog: SchemeCatalog)
        ensures
            catalog.wf(),
            catalog.names().len() == 0,
            catalog@ == Map::<Seq<char>, ColorSchemeView>::empty(),
    {
        SchemeCatalog { names: Vec::new(), schemes: Vec::new() }
    }

    /// The number of schemes.
    pub fn len(&self) -> (n: usize)
        requires
            self.wf(),
        ensures
            n == self.names().len(),
    {
        self.names.len()
    }

    /// The scheme at place `row` in the order of the names.
    pub fn scheme_at(&self, row: usize) -> (scheme: &ColorScheme)
        requires
            self.wf(),
            row < self.names().len(),
        ensures
            scheme@ == self.schemes()[row as int],
            scheme@.name == self.names()[row as int],
            self@.dom().contains(scheme@.name),
            self@[scheme@.name] == scheme@,
    {
        proof {
            let names = self.names();
            assert(self.schemes()[row as int] == self.schemes@[row as int]@);
            lemma_increasing_distinct(
                names,
                row as int,
                names.index_of(names[row as int]),
            );
        }
        &self.schemes[row]
    }

    /// Puts `scheme` under its name, in place of any scheme of that name.
    pub fn insert(&mut self, scheme: ColorScheme)
        requires
            old(self).wf(),
        ensures
            final(self).wf(),
            final(self)@ == old(self)@.insert(scheme@.name, scheme@),
    {
        let (pos, found) = locate(&self.names, scheme.name.as_str());
        let ghost names0 = self.names();
        let ghost schemes0 = self.schemes();
        let ghost before = self@;
        let ghost put = scheme@;
        if found {
            self.schemes.push(scheme);
            self.schemes.swap_remove(pos);
            assert(self.schemes() =~= schemes0.update(pos as int, put));
            assert(self@ =~= before.insert(put.name, put)) by {
                assert forall|k: Seq<char>| names0.contains(k) implies #[trigger] self@[k]
                    == before.insert(put.name, put)[k] by {
                    let i = names0.index_of(k);
                    if k == put.name {
                        lemma_increasing_distinct(names0, i, pos as int);
                    }
                }
            }
        } else {
            proof {
                lemma_insert_keeps_order(names0, pos as int, put.name);
            }
            self.names.insert(pos, scheme.name.clone());
            self.schemes.insert(pos, scheme);
            let ghost names1 = self.names();
            let ghost schemes1 = self.schemes();
            assert(names1 =~= names0.insert(pos as int, put.name));
            assert(schemes1 =~= schemes0.insert(pos as int, put));
            assert forall|i: int| 0 <= i < names1.len() implies (#[trigger] schemes1[i]).name
                == names1[i] by {}
            assert(self@ =~= before.insert(put.name, put)) by {
                assert forall|k: Seq<char>| names1.contains(k) implies #[trigger] self@[k]
                    == before.insert(put.name, put)[k] by {
                    let i = names1.index_of(k);
                    if i < pos {
                        lemma_increasing_distinct(names0, i, names0.index_of(k));
                    } else if i > pos {
                        lemma_increasing_distinct(
                            names0,
                            i - 1,
                            names0.index_of(k),
                        );
                    }
                }
                assert forall|k: Seq<char>|
                    self@.dom().contains(k) <==> before.insert(put.name, put).dom().contains(
                        k,
                    ) by {}
            }
        }
    }
}

} // verus!
