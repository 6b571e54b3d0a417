//! Weather categories: classification of a category name, its canonical
//! name and its display glyph.

use vstd::prelude::*;

verus! {

/// The closed set of weather categories.
#[derive(Debug, Clone, Copy, PartialEq, Eq, Structural)]
pub enum Synopsis {
    Thunderstorm,
    Drizzle,
    Rain,
    Snow,
    Atmosphere,
    Clear,
    Clouds,
    Other,
}

/// The same categories, under the name used where they describe a forecast.
pub type WeatherDescription = Synopsis;

/// The category that a name denotes: one of the canonical names, or `Other`.
pub open spec fn classify_spec(text: Seq<char>) -> Synopsis {
    if text == "Thunderstorm"@ {
        Synopsis::Thunderstorm
    } else if text == "Drizzle"@ {
        Synopsis::Drizzle
    } else if text == "Rain"@ {
        Synopsis::Rain
    } else if text == "Snow"@ {
        Synopsis::Snow
    } else if text == "Atmosphere"@ {
        Synopsis::Atmosphere
    } else if text == "Clear"@ {
        Synopsis::Clear
    } else if text == "Clouds"@ {
        Synopsis::Clouds
    } else {
        Synopsis::Other
    }
}

impl Synopsis {
    /// The canonical name of the category.
    pub open spec fn name_spec(self) -> Seq<char> {
        match self {
            Synopsis::Thunderstorm => "Thunderstorm"@,
            Synopsis::Drizzle => "Drizzle"@,
            Synopsis::Rain => "Rain"@,
            Synopsis::Snow => "Snow"@,
            Synopsis::Atmosphere => "Atmosphere"@,
            Synopsis::Clear => "Clear"@,
            Synopsis::Clouds => "Clouds"@,
            Synopsis::Other => "Other"@,
        }
    }

    /// The glyph shown beside the category.
    pub open spec fn emoji_spec(self) -> Seq<char> {
        match self {
            Synopsis::Thunderstorm => "⚡️"@,
            Synopsis::Drizzle => "🌧️"@,
            Synopsis::Rain => "☔️"@,
            Synopsis::Snow => "❄️"@,
            Synopsis::Atmosphere => "🌫️"@,
            Synopsis::Clear => "☀️"@,
            Synopsis::Clouds => "🌥️"@,
            Synopsis::Other => "❓"@,
        }
    }

    /// Classifies a category name; any name outside the canonical set is `Other`.
    pub fn classify(text: &str) -> (r: Synopsis)
        ensures
            r == classify_spec(text@),
    {
        if same_text(text, "Thunderstorm") {
            Synopsis::Thunderstorm
        } else if same_text(text, "Drizzle") {
            Synopsis::Drizzle
        } else if same_text(text, "Rain") {
            Synopsis::Rain
        } else if same_text(text, "Snow") {
            Synopsis::Snow
        } else if same_text(text, "Atmosphere") {
            Synopsis::Atmosphere
        } else if same_text(text, "Clear") {
            Synopsis::Clear
        } else if same_text(text, "Clouds") {
            Synopsis::Clouds
        } else {
            Synopsis::Other
        }
    }

    /// The canonical name of the category.
    pub fn name(&self) -> (r: &'static str)
        ensures
            r@ == self.name_spec(),
    {
        match self {
            Synopsis::Thunderstorm => "Thunderstorm",
            Synopsis::Drizzle => "Drizzle",
            Synopsis::Rain => "Rain",
            Synopsis::Snow => "Snow",
            Synopsis::Atmosphere => "Atmosphere",
            Synopsis::Clear => "Clear",
            Synopsis::Clouds => "Clouds",
            Synopsis::Other => "Other",
        }
    }

    /// The glyph shown beside the category.
    pub fn get_emoji(&self) -> (r: &'static str)
        ensures
            r@ == self.emoji_spec(),
    {
        match self {
            Synopsis::Thunderstorm => "⚡️",
            Synopsis::Drizzle => "🌧️",
            Synopsis::Rain => "☔️",
            Synopsis::Snow => "❄️",
            Synopsis::Atmosphere => "🌫️",
            Synopsis::Clear => "☀️",
            Synopsis::Clouds => "🌥️",
            Synopsis::Other => "❓",
        }
    }
}

impl Default for Synopsis {
    fn default() -> (r: Synopsis)
        ensures
            r == Synopsis::Other,
    {
        Synopsis::Other
    }
}

impl std::str::FromStr for Synopsis {
    type Err = ();

    fn from_str(input: &str) -> (r: Result<Synopsis, ()>)
        ensures
            r == Ok::<Synopsis, ()>(classify_spec(input@)),
    {
        Ok(Synopsis::classify(input))
    }
}

/// Each canonical name differs from the others in its length or its first letter.
proof fn lemma_name_heads(c: Synopsis)
    ensures
        c.name_spec().len() > 0,
        c.name_spec().len() == match c {
            Synopsis::Thunderstorm => 12int,
            Synopsis::Drizzle => 7,
            Synopsis::Rain => 4,
            Synopsis::Snow => 4,
            Synopsis::Atmosphere => 10,
            Synopsis::Clear => 5,
            Synopsis::Clouds => 6,
            Synopsis::Other => 5,
        },
        c.name_spec()[0] == match c {
            Synopsis::Thunderstorm => 'T',
            Synopsis::Drizzle => 'D',
            Synopsis::Rain => 'R',
            Synopsis::Snow => 'S',
            Synopsis::Atmosphere => 'A',
            Synopsis::Clear => 'C',
            Synopsis::Clouds => 'C',
            Synopsis::Other => 'O',
        },
{
    reveal_strlit("Thunderstorm");
    reveal_strlit("Drizzle");
    reveal_strlit("Rain");
    reveal_strlit("Snow");
    reveal_strlit("Atmosphere");
    reveal_strlit("Clear");
    reveal_strlit("Clouds");
    reveal_strlit("Other");
}

/// Classifying the canonical name of any category gives that category back,
/// and every name outside the eight canonical names is classified as `Other`.
pub proof fn lemma_classify_round_trip(c: Synopsis, text: Seq<char>)
    ensures
        classify_spec(c.name_spec()) == c,
        (forall|d: Synopsis| d.name_spec() != text) ==> classify_spec(text) == Synopsis::Other,
{
    lemma_name_heads(c);
    lemma_name_heads(Synopsis::Thunderstorm);
    lemma_name_heads(Synopsis::Drizzle);
    lemma_name_heads(Synopsis::Rain);
    lemma_name_heads(Synopsis::Snow);
    lemma_name_heads(Synopsis::Atmosphere);
    lemma_name_heads(Synopsis::Clear);
    lemma_name_heads(Synopsis::Clouds);
    lemma_name_heads(Synopsis::Other);
    if forall|d: Synopsis| d.name_spec() != text {
        assert(Synopsis::Thunderstorm.name_spec() != text);
        assert(Synopsis::Drizzle.name_spec() != text);
        assert(Synopsis::Rain.name_spec() != text);
        assert(Synopsis::Snow.name_spec() != text);
        assert(Synopsis::Atmosphere.name_spec() != text);
        assert(Synopsis::Clear.name_spec() != text);
        assert(Synopsis::Clouds.name_spec() != text);
    }
}

/// The glyphs differ from one another in their first character.
proof fn lemma_emoji_heads(c: Synopsis)
    ensures
        c.emoji_spec().len() > 0,
        c.emoji_spec()[0] == match c {
            Synopsis::Thunderstorm => '\u{26a1}',
            Synopsis::Drizzle => '\u{1f327}',
            Synopsis::Rain => '\u{2614}',
            Synopsis::Snow => '\u{2744}',
            Synopsis::Atmosphere => '\u{1f32b}',
            Synopsis::Clear => '\u{2600}',
            Synopsis::Clouds => '\u{1f325}',
            Synopsis::Other => '\u{2753}',
        },
{
    reveal_strlit("⚡️");
    reveal_strlit("🌧️");
    reveal_strlit("☔️");
    reveal_strlit("❄️");
    reveal_strlit("🌫️");
    reveal_strlit("☀️");
    reveal_strlit("🌥️");
    reveal_strlit("❓");
}

/// The glyph table is a function of the category alone, and no two
/// categories share a glyph.
pub proof fn lemma_emoji_one_to_one(a: Synopsis, b: Synopsis)
    ensures
        a == b ==> a.emoji_spec() == b.emoji_spec(),
        a.emoji_spec() == b.emoji_spec() ==> a == b,
{
    lemma_emoji_heads(a);
    lemma_emoji_heads(b);
}

/// Whether two strings hold the same characters.
pub fn same_text(a: &str, b: &str) -> (r: bool)
    ensures
        r == (a@ == b@),
{
    let n = a.unicode_len();
    if n != b.unicode_len() {
        return false;
    }
    let mut i: usize = 0;
    while i < n
        invariant
            n == a@.len(),
            n == b@.len(),
            i <= n,
            a@.subrange(0, i as int) == b@.subrange(0, i as int),
        decreases n - i,
    {
        if a.get_char(i) != b.get_char(i) {
            assert(a@[i as int] != b@[i as int]);
            return false;
        }
        assert(a@.subrange(0, i + 1) =~= a@.subrange(0, i as int).push(a@[i as int]));
        assert(b@.subrange(0, i + 1) =~= b@.subrange(0, i as int).push(b@[i as int]));
        i = i + 1;
    }
    assert(a@ =~= a@.subrange(0, n as int));
    assert(b@ =~= b@.subrange(0, n as int));
    true
}

} // verus!
