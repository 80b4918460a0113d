use vstd::prelude::*;

verus! {

/// Debug-style rendering of a record, as the derived `Debug` of `Info`
/// writes it in its alternate (`{:#?}`) form.
pub uninterp spec fn pretty_text(v: InfoView) -> Seq<char>;

/// The mathematical content of an `Info` record.
pub ghost struct InfoView {
    pub name: Seq<char>,
    pub father_name: Seq<char>,
    pub mother_name: Seq<char>,
    pub birth_day: Seq<char>,
    pub height: i32,
    pub weight: i32,
    pub language: Seq<char>,
}

/// An inert personal-details record used as one of the sample inputs.
#[derive(Debug)]
pub struct Info<'a> {
    name: &'a str,
    father_name: &'a str,
    mother_name: &'a str,
    birth_day: &'a str,
    height: i32,
    weight: i32,
    language: &'a str,
}

impl<'a> View for Info<'a> {
    type V = InfoView;

    closed spec fn view(&self) -> InfoView {
        InfoView {
            name: self.name@,
            father_name: self.father_name@,
            mother_name: self.mother_name@,
            birth_day: self.birth_day@,
            height: self.height,
            weight: self.weight,
            language: self.language@,
        }
    }
}

/// Relies on `format!("{:#?}")` over the `Debug` impl derived for `Info`:
/// the text depends on the field values alone.
#[verifier::external_body]
fn render_pretty(info: &Info) -> (r: String)
    ensures
        r@ == pretty_text(info@),
{
    format!("{:#?}", info)
}

impl<'a> Info<'a> {
    /// The alternate debug rendering of this record.
    pub fn pretty(&self) -> (r: String)
        ensures
            r@ == pretty_text(self@),
    {
        render_pretty(self)
    }
}

/// The record that `Info::default` gives: every text empty, every number zero.
pub open spec fn empty_info() -> InfoView {
    InfoView {
        name: Seq::empty(),
        father_name: Seq::empty(),
        mother_name: Seq::empty(),
        birth_day: Seq::empty(),
        height: 0,
        weight: 0,
        language: Seq::empty(),
    }
}

impl<'a> Default for Info<'a> {
    fn default() -> (r: Info<'a>)
        ensures
            r@ == empty_info(),
    {
        proof {
            reveal_strlit("");
            assert(""@ =~= Seq::<char>::empty());
        }
        Info {
            name: "",
            father_name: "",
            mother_name: "",
            birth_day: "",
            height: 0,
            weight: 0,
            language: "",
        }
    }
}

/// The value of every field left unset when a record is built.
pub open spec fn default_info() -> InfoView {
    InfoView {
        name: "David"@,
        father_name: "Matt"@,
        mother_name: "Sophia"@,
        birth_day: "2000-03-06"@,
        height: 170,
        weight: 70,
        language: "English"@,
    }
}

impl<'a> Info<'a> {
    pub fn name(&self) -> (r: &'a str)
        ensures
            r@ == self@.name,
    {
        self.name
    }

    pub fn father_name(&self) -> (r: &'a str)
        ensures
            r@ == self@.father_name,
    {
        self.father_name
    }

    pub fn mother_name(&self) -> (r: &'a str)
        ensures
            r@ == self@.mother_name,
    {
        self.mother_name
    }

    pub fn birth_day(&self) -> (r: &'a str)
        ensures
            r@ == self@.birth_day,
    {
        self.birth_day
    }

    pub fn height(&self) -> (r: i32)
        ensures
            r == self@.height,
    {
        self.height
    }

    pub fn weight(&self) -> (r: i32)
        ensures
            r == self@.weight,
    {
        self.weight
    }

    pub fn language(&self) -> (r: &'a str)
        ensures
            r@ == self@.language,
    {
        self.language
    }
}

/// Which fields of a pending record have been set, and to what.
pub ghost struct InfoBuilderView {
    pub name: Option<Seq<char>>,
    pub father_name: Option<Seq<char>>,
    pub mother_name: Option<Seq<char>>,
    pub birth_day: Option<Seq<char>>,
    pub height: Option<i32>,
    pub weight: Option<i32>,
    pub language: Option<Seq<char>>,
}

impl InfoBuilderView {
    /// A builder on which no setter has been called.
    pub open spec fn empty() -> InfoBuilderView {
        InfoBuilderView {
            name: None,
            father_name: None,
            mother_name: None,
            birth_day: None,
            height: None,
            weight: None,
            language: None,
        }
    }

    /// The record that building yields: each set field as set, every other
    /// field at its default.
    pub open spec fn resolve(self) -> InfoView {
        let d = default_info();
        InfoView {
            name: if let Some(v) = self.name { v } else { d.name },
            father_name: if let Some(v) = self.father_name { v } else { d.father_name },
            mother_name: if let Some(v) = self.mother_name { v } else { d.mother_name },
            birth_day: if let Some(v) = self.birth_day { v } else { d.birth_day },
            height: if let Some(v) = self.height { v } else { d.height },
            weight: if let Some(v) = self.weight { v } else { d.weight },
            language: if let Some(v) = self.language { v } else { d.language },
        }
    }
}

/// Fluent builder of `Info`: every setter is optional and overrides one
/// field's default.
pub struct InfoBuilder<'a> {
    name: Option<&'a str>,
    father_name: Option<&'a str>,
    mother_name: Option<&'a str>,
    birth_day: Option<&'a str>,
    height: Option<i32>,
    weight: Option<i32>,
    language: Option<&'a str>,
}

pub open spec fn opt_str_view(o: Option<&str>) -> Option<Seq<char>> {
    match o {
        Some(s) => Some(s@),
        None => None,
    }
}

impl<'a> View for InfoBuilder<'a> {
    type V = InfoBuilderView;

    closed spec fn view(&self) -> InfoBuilderView {
        InfoBuilderView {
            name: opt_str_view(self.name),
            father_name: opt_str_view(self.father_name),
            mother_name: opt_str_view(self.mother_name),
            birth_day: opt_str_view(self.birth_day),
            height: self.height,
            weight: self.weight,
            language: opt_str_view(self.language),
        }
    }
}

impl<'a> Default for InfoBuilder<'a> {
    fn default() -> (r: InfoBuilder<'a>)
        ensures
            r@ == InfoBuilderView::empty(),
    {
        InfoBuilder::new()
    }
}

impl<'a> InfoBuilder<'a> {
    /// A builder with no field set.
    pub fn new() -> (r: InfoBuilder<'a>)
        ensures
            r@ == InfoBuilderView::empty(),
    {
        InfoBuilder {
            name: None,
            father_name: None,
            mother_name: None,
            birth_day: None,
            height: None,
            weight: None,
            language: None,
        }
    }

    pub fn name(self, value: &'a str) -> (r: InfoBuilder<'a>)
        ensures
            r@ == (InfoBuilderView { name: Some(value@), ..self@ }),
    {
        InfoBuilder { name: Some(value), ..self }
    }

    pub fn father_name(self, value: &'a str) -> (r: InfoBuilder<'a>)
        ensures
            r@ == (InfoBuilderView { father_name: Some(value@), ..self@ }),
    {
        InfoBuilder { father_name: Some(value), ..self }
    }

    pub fn mother_name(self, value: &'a str) -> (r: InfoBuilder<'a>)
        ensures
            r@ == (InfoBuilderView { mother_name: Some(value@), ..self@ }),
    {
        InfoBuilder { mother_name: Some(value), ..self }
    }

    pub fn birth_day(self, value: &'a str) -> (r: InfoBuilder<'a>)
        ensures
            r@ == (InfoBuilderView { birth_day: Some(value@), ..self@ }),
    {
        InfoBuilder { birth_day: Some(value), ..self }
    }

    pub fn height(self, value: i32) -> (r: InfoBuilder<'a>)
        ensures
            r@ == (InfoBuilderView { height: Some(value), ..self@ }),
    {
        InfoBuilder { height: Some(value), ..self }
    }

    pub fn weight(self, value: i32) -> (r: InfoBuilder<'a>)
        ensures
            r@ == (InfoBuilderView { weight: Some(value), ..self@ }),
    {
        InfoBuilder { weight: Some(value), ..self }
    }

    pub fn language(self, value: &'a str) -> (r: InfoBuilder<'a>)
        ensures
            r@ == (InfoBuilderView { language: Some(value@), ..self@ }),
    {
        InfoBuilder { language: Some(value), ..self }
    }

    /// The finished record; it never fails, since every field has a default.
    pub fn build(&self) -> (r: Info<'a>)
        ensures
            r@ == self@.resolve(),
    {
        Info {
            name: match self.name { Some(v) => v, None => "David" },
            father_name: match self.father_name { Some(v) => v, None => "Matt" },
            mother_name: match self.mother_name { Some(v) => v, None => "Sophia" },
            birth_day: match self.birth_day { Some(v) => v, None => "2000-03-06" },
            height: match self.height { Some(v) => v, None => 170 },
            weight: match self.weight { Some(v) => v, None => 70 },
            language: match self.language { Some(v) => v, None => "English" },
        }
    }
}

/// A record built with no setter call holds exactly the default values.
pub proof fn lemma_unset_builder_gives_defaults()
    ensures
        InfoBuilderView::empty().resolve() == default_info(),
{
}

/// Setting some fields leaves every other field at its default:
/// each field of the built record is the value set, or else the default.
pub proof fn lemma_unset_fields_keep_defaults(b: InfoBuilderView)
    ensures
        b.name is None ==> b.resolve().name == default_info().name,
        b.father_name is None ==> b.resolve().father_name == default_info().father_name,
        b.mother_name is None ==> b.resolve().mother_name == default_info().mother_name,
        b.birth_day is None ==> b.resolve().birth_day == default_info().birth_day,
        b.height is None ==> b.resolve().height == default_info().height,
        b.weight is None ==> b.resolve().weight == default_info().weight,
        b.language is None ==> b.resolve().language == default_info().language,
        b.name matches Some(v) ==> b.resolve().name == v,
        b.father_name matches Some(v) ==> b.resolve().father_name == v,
        b.mother_name matches Some(v) ==> b.resolve().mother_name == v,
        b.birth_day matches Some(v) ==> b.resolve().birth_day == v,
        b.height matches Some(v) ==> b.resolve().height == v,
        b.weight matches Some(v) ==> b.resolve().weight == v,
        b.language matches Some(v) ==> b.resolve().language == v,
{
}

} // verus!
