use vstd::prelude::*;

verus! {

/// Key code of the physical key that types a punctuation symbol on a JIS layout.
pub open spec fn jis_keycode_of_char(c: char) -> Option<Seq<char>> {
    if c == '-' {
        Some("hyphen"@)
    } else if c == ',' {
        Some("comma"@)
    } else if c == '.' {
        Some("period"@)
    } else if c == '/' {
        Some("slash"@)
    } else if c == '=' {
        Some("equal_sign"@)
    } else if c == '@' {
        Some("open_bracket"@)
    } else if c == '[' {
        Some("close_bracket"@)
    } else if c == ']' {
        Some("backslash"@)
    } else if c == ';' {
        Some("semicolon"@)
    } else if c == ':' {
        Some("quote"@)
    } else if c == '_' {
        Some("international1"@)
    } else {
        None
    }
}

/// The JIS symbol table: a symbol is a single punctuation character.
pub open spec fn jis_keycode(s: Seq<char>) -> Option<Seq<char>> {
    if s.len() == 1 {
        jis_keycode_of_char(s[0])
    } else {
        None
    }
}

/// Looks a symbol up in the JIS symbol table.
pub fn jis_keycode_lookup(s: &Vec<char>) -> (r: Option<&'static str>)
    ensures
        match r {
            Some(v) => jis_keycode(s@) == Some(v@),
            None => jis_keycode(s@) is None,
        },
{
    if s.len() != 1 {
        return None;
    }
    let c = s[0];
    if c == '-' {
        Some("hyphen")
    } else if c == ',' {
        Some("comma")
    } else if c == '.' {
        Some("period")
    } else if c == '/' {
        Some("slash")
    } else if c == '=' {
        Some("equal_sign")
    } else if c == '@' {
        Some("open_bracket")
    } else if c == '[' {
        Some("close_bracket")
    } else if c == ']' {
        Some("backslash")
    } else if c == ';' {
        Some("semicolon")
    } else if c == ':' {
        Some("quote")
    } else if c == '_' {
        Some("international1")
    } else {
        None
    }
}

/// Romaji spelling of a hiragana syllable written with one character
/// (and of the sokuon, the long-vowel mark and a few punctuation glyphs).
pub open spec fn romaji_of_char(c: char) -> Option<Seq<char>> {
    match c {
        'あ' => Some("a"@),
        'い' => Some("i"@),
        'う' => Some("u"@),
        'え' => Some("e"@),
        'お' => Some("o"@),
        'か' => Some("ka"@),
        'き' => Some("ki"@),
        'く' => Some("ku"@),
        'け' => Some("ke"@),
        'こ' => Some("ko"@),
        'さ' => Some("sa"@),
        'し' => Some("shi"@),
        'す' => Some("su"@),
        'せ' => Some("se"@),
        'そ' => Some("so"@),
        'た' => Some("ta"@),
        'ち' => Some("chi"@),
        'つ' => Some("tsu"@),
        'て' => Some("te"@),
        'と' => Some("to"@),
        'な' => Some("na"@),
        'に' => Some("ni"@),
        'ぬ' => Some("nu"@),
        'ね' => Some("ne"@),
        'の' => Some("no"@),
        'は' => Some("ha"@),
        'ひ' => Some("hi"@),
        'ふ' => Some("fu"@),
        'へ' => Some("he"@),
        'ほ' => Some("ho"@),
        'ま' => Some("ma"@),
        'み' => Some("mi"@),
        'む' => Some("mu"@),
        'め' => Some("me"@),
        'も' => Some("mo"@),
        'や' => Some("ya"@),
        'ゆ' => Some("yu"@),
        'よ' => Some("yo"@),
        'ら' => Some("ra"@),
        'り' => Some("ri"@),
        'る' => Some("ru"@),
        'れ' => Some("re"@),
        'ろ' => Some("ro"@),
        'わ' => Some("wa"@),
        'ゐ' => Some("wi"@),
        'ゑ' => Some("we"@),
        'を' => Some("wo"@),
        'ん' => Some("nn"@),
        'が' => Some("ga"@),
        'ぎ' => Some("gi"@),
        'ぐ' => Some("gu"@),
        'げ' => Some("ge"@),
        'ご' => Some("go"@),
        'ざ' => Some("za"@),
        'じ' => Some("ji"@),
        'ず' => Some("zu"@),
        'ぜ' => Some("ze"@),
        'ぞ' => Some("zo"@),
        'だ' => Some("da"@),
        'ぢ' => Some("di"@),
        'づ' => Some("du"@),
        'で' => Some("de"@),
        'ど' => Some("do"@),
        'ば' => Some("ba"@),
        'び' => Some("bi"@),
        'ぶ' => Some("bu"@),
        'べ' => Some("be"@),
        'ぼ' => Some("bo"@),
        'ぱ' => Some("pa"@),
        'ぴ' => Some("pi"@),
        'ぷ' => Some("pu"@),
        'ぺ' => Some("pe"@),
        'ぽ' => Some("po"@),
        'っ' => Some("xtsu"@),
        'ー' => Some("-"@),
        '、' => Some(","@),
        '。' => Some("."@),
        '!' => Some("!"@),
        _ => None,
    }
}

/// Romaji spelling of a syllable written with two characters: a contracted
/// sound, a small-vowel combination or a voiced mark.
pub open spec fn romaji_of_pair(a: char, b: char) -> Option<Seq<char>> {
    match (a, b) {
        ('き', 'ゃ') => Some("kya"@),
        ('き', 'ゅ') => Some("kyu"@),
        ('き', 'ょ') => Some("kyo"@),
        ('し', 'ゃ') => Some("sha"@),
        ('し', 'ゅ') => Some("shu"@),
        ('し', 'ょ') => Some("sho"@),
        ('ち', 'ゃ') => Some("cha"@),
        ('ち', 'ゅ') => Some("chu"@),
        ('ち', 'ょ') => Some("cho"@),
        ('に', 'ゃ') => Some("nya"@),
        ('に', 'ゅ') => Some("nyu"@),
        ('に', 'ょ') => Some("nyo"@),
        ('ひ', 'ゃ') => Some("hya"@),
        ('ひ', 'ゅ') => Some("hyu"@),
        ('ひ', 'ょ') => Some("hyo"@),
        ('み', 'ゃ') => Some("mya"@),
        ('み', 'ゅ') => Some("myu"@),
        ('み', 'ょ') => Some("myo"@),
        ('り', 'ゃ') => Some("rya"@),
        ('り', 'ゅ') => Some("ryu"@),
        ('り', 'ょ') => Some("ryo"@),
        ('ぎ', 'ゃ') => Some("gya"@),
        ('ぎ', 'ゅ') => Some("gyu"@),
        ('ぎ', 'ょ') => Some("gyo"@),
        ('じ', 'ゃ') => Some("ja"@),
        ('じ', 'ゅ') => Some("ju"@),
        ('じ', 'ょ') => Some("jo"@),
        ('ぢ', 'ゃ') => Some("dya"@),
        ('ぢ', 'ゅ') => Some("dyu"@),
        ('ぢ', 'ょ') => Some("dyo"@),
        ('び', 'ゃ') => Some("bya"@),
        ('び', 'ゅ') => Some("byu"@),
        ('び', 'ょ') => Some("byo"@),
        ('ぴ', 'ゃ') => Some("pya"@),
        ('ぴ', 'ゅ') => Some("pyu"@),
        ('ぴ', 'ょ') => Some("pyo"@),
        ('ふ', 'ぁ') => Some("fa"@),
        ('ふ', 'ぃ') => Some("fi"@),
        ('ふ', 'ぇ') => Some("fe"@),
        ('ふ', 'ぉ') => Some("fo"@),
        ('う', 'ぃ') => Some("wi"@),
        ('う', 'ぇ') => Some("we"@),
        ('う', 'ぉ') => Some("wo"@),
        ('う', '゛') => Some("vu"@),
        _ => None,
    }
}

/// The hiragana-to-romaji table.
pub open spec fn romaji_of(s: Seq<char>) -> Option<Seq<char>> {
    if s.len() == 1 {
        romaji_of_char(s[0])
    } else if s.len() == 2 {
        romaji_of_pair(s[0], s[1])
    } else {
        None
    }
}

fn romaji_char_lookup(c: char) -> (r: Option<&'static str>)
    ensures
        match r {
            Some(v) => romaji_of_char(c) == Some(v@),
            None => romaji_of_char(c) is None,
        },
{
    match c {
        'あ' => Some("a"),
        'い' => Some("i"),
        'う' => Some("u"),
        'え' => Some("e"),
        'お' => Some("o"),
        'か' => Some("ka"),
        'き' => Some("ki"),
        'く' => Some("ku"),
        'け' => Some("ke"),
        'こ' => Some("ko"),
        'さ' => Some("sa"),
        'し' => Some("shi"),
        'す' => Some("su"),
        'せ' => Some("se"),
        'そ' => Some("so"),
        'た' => Some("ta"),
        'ち' => Some("chi"),
        'つ' => Some("tsu"),
        'て' => Some("te"),
        'と' => Some("to"),
        'な' => Some("na"),
        'に' => Some("ni"),
        'ぬ' => Some("nu"),
        'ね' => Some("ne"),
        'の' => Some("no"),
        'は' => Some("ha"),
        'ひ' => Some("hi"),
        'ふ' => Some("fu"),
        'へ' => Some("he"),
        'ほ' => Some("ho"),
        'ま' => Some("ma"),
        'み' => Some("mi"),
        'む' => Some("mu"),
        'め' => Some("me"),
        'も' => Some("mo"),
        'や' => Some("ya"),
        'ゆ' => Some("yu"),
        'よ' => Some("yo"),
        'ら' => Some("ra"),
        'り' => Some("ri"),
        'る' => Some("ru"),
        'れ' => Some("re"),
        'ろ' => Some("ro"),
        'わ' => Some("wa"),
        'ゐ' => Some("wi"),
        'ゑ' => Some("we"),
        'を' => Some("wo"),
        'ん' => Some("nn"),
        'が' => Some("ga"),
        'ぎ' => Some("gi"),
        'ぐ' => Some("gu"),
        'げ' => Some("ge"),
        'ご' => Some("go"),
        'ざ' => Some("za"),
        'じ' => Some("ji"),
        'ず' => Some("zu"),
        'ぜ' => Some("ze"),
        'ぞ' => Some("zo"),
        'だ' => Some("da"),
        'ぢ' => Some("di"),
        'づ' => Some("du"),
        'で' => Some("de"),
        'ど' => Some("do"),
        'ば' => Some("ba"),
        'び' => Some("bi"),
        'ぶ' => Some("bu"),
        'べ' => Some("be"),
        'ぼ' => Some("bo"),
        'ぱ' => Some("pa"),
        'ぴ' => Some("pi"),
        'ぷ' => Some("pu"),
        'ぺ' => Some("pe"),
        'ぽ' => Some("po"),
        'っ' => Some("xtsu"),
        'ー' => Some("-"),
        '、' => Some(","),
        '。' => Some("."),
        '!' => Some("!"),
        _ => None,
    }
}

fn romaji_pair_lookup(a: char, b: char) -> (r: Option<&'static str>)
    ensures
        match r {
            Some(v) => romaji_of_pair(a, b) == Some(v@),
            None => romaji_of_pair(a, b) is None,
        },
{
    match (a, b) {
        ('き', 'ゃ') => Some("kya"),
        ('き', 'ゅ') => Some("kyu"),
        ('き', 'ょ') => Some("kyo"),
        ('し', 'ゃ') => Some("sha"),
        ('し', 'ゅ') => Some("shu"),
        ('し', 'ょ') => Some("sho"),
        ('ち', 'ゃ') => Some("cha"),
        ('ち', 'ゅ') => Some("chu"),
        ('ち', 'ょ') => Some("cho"),
        ('に', 'ゃ') => Some("nya"),
        ('に', 'ゅ') => Some("nyu"),
        ('に', 'ょ') => Some("nyo"),
        ('ひ', 'ゃ') => Some("hya"),
        ('ひ', 'ゅ') => Some("hyu"),
        ('ひ', 'ょ') => Some("hyo"),
        ('み', 'ゃ') => Some("mya"),
        ('み', 'ゅ') => Some("myu"),
        ('み', 'ょ') => Some("myo"),
        ('り', 'ゃ') => Some("rya"),
        ('り', 'ゅ') => Some("ryu"),
        ('り', 'ょ') => Some("ryo"),
        ('ぎ', 'ゃ') => Some("gya"),
        ('ぎ', 'ゅ') => Some("gyu"),
        ('ぎ', 'ょ') => Some("gyo"),
        ('じ', 'ゃ') => Some("ja"),
        ('じ', 'ゅ') => Some("ju"),
        ('じ', 'ょ') => Some("jo"),
        ('ぢ', 'ゃ') => Some("dya"),
        ('ぢ', 'ゅ') => Some("dyu"),
        ('ぢ', 'ょ') => Some("dyo"),
        ('び', 'ゃ') => Some("bya"),
        ('び', 'ゅ') => Some("byu"),
        ('び', 'ょ') => Some("byo"),
        ('ぴ', 'ゃ') => Some("pya"),
        ('ぴ', 'ゅ') => Some("pyu"),
        ('ぴ', 'ょ') => Some("pyo"),
        ('ふ', 'ぁ') => Some("fa"),
        ('ふ', 'ぃ') => Some("fi"),
        ('ふ', 'ぇ') => Some("fe"),
        ('ふ', 'ぉ') => Some("fo"),
        ('う', 'ぃ') => Some("wi"),
        ('う', 'ぇ') => Some("we"),
        ('う', 'ぉ') => Some("wo"),
        ('う', '゛') => Some("vu"),
        _ => None,
    }
}

/// Looks a symbol up in the hiragana-to-romaji table.
pub fn romaji_lookup(s: &Vec<char>) -> (r: Option<&'static str>)
    ensures
        match r {
            Some(v) => romaji_of(s@) == Some(v@),
            None => romaji_of(s@) is None,
        },
{
    if s.len() == 1 {
        romaji_char_lookup(s[0])
    } else if s.len() == 2 {
        romaji_pair_lookup(s[0], s[1])
    } else {
        None
    }
}

} // verus!
