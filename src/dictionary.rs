use vstd::prelude::*;

use crate::password_options::CharSet;

verus! {

/// Whether `c` is a control character: general category Cc, that is
/// U+0000 to U+001F and U+007F to U+009F.
pub open spec fn is_control_spec(c: char) -> bool {
    (c as int) <= 0x1F || (0x7F <= (c as int) && (c as int) <= 0x9F)
}

/// Whether `c` is a control character (the same test as `char::is_control`).
pub fn is_control_char(c: char) -> (r: bool)
    ensures
        r == is_control_spec(c),
{
    let u = c as u32;
    u <= 0x1F || (0x7F <= u && u <= 0x9F)
}

/// Whether `c` is an ASCII letter or digit.
pub open spec fn is_ascii_alphanumeric_spec(c: char) -> bool {
    ('0' <= c && c <= '9') || ('A' <= c && c <= 'Z') || ('a' <= c && c <= 'z')
}

/// The characters that a character set draws from, before the policy flags
/// narrow them. The passphrase set draws words, not characters.
pub open spec fn in_universe(cs: CharSet, c: char) -> bool {
    let u = c as int;
    match cs {
        CharSet::Ascii => 0x20 <= u && u <= 0x7E,
        CharSet::AsciiExtended => (0x20 <= u && u <= 0x7E) || (0xA0 <= u && u <= 0xFF),
        CharSet::Unicode => !is_control_spec(c),
        CharSet::Xkcd => false,
        CharSet::Numbers => '0' <= c && c <= '9',
        CharSet::Alphanumeric => is_ascii_alphanumeric_spec(c),
    }
}

/// The character sets whose universe is small enough to list.
pub open spec fn is_enumerable(cs: CharSet) -> bool {
    cs != CharSet::Unicode && cs != CharSet::Xkcd
}

/// Whether `c` belongs to the universe of `cs`.
pub fn universe_contains(cs: CharSet, c: char) -> (r: bool)
    ensures
        r == in_universe(cs, c),
{
    let u = c as u32;
    match cs {
        CharSet::Ascii => 0x20 <= u && u <= 0x7E,
        CharSet::AsciiExtended => (0x20 <= u && u <= 0x7E) || (0xA0 <= u && u <= 0xFF),
        CharSet::Unicode => !is_control_char(c),
        CharSet::Xkcd => false,
        CharSet::Numbers => '0' <= c && c <= '9',
        CharSet::Alphanumeric => ('0' <= c && c <= '9') || ('A' <= c && c <= 'Z') || ('a' <= c
            && c <= 'z'),
    }
}

/// Each listable universe lies below U+0100.
pub proof fn lemma_enumerable_universe_is_latin1(cs: CharSet, c: char)
    requires
        is_enumerable(cs),
        in_universe(cs, c),
    ensures
        (c as int) < 0x100,
{
}

/// The words that a freshly built dictionary holds.
pub open spec fn standard_words() -> Seq<&'static str> {
    seq![
        "able", "acid", "aged", "also", "area", "army", "away", "baby", "back", "ball", "band",
        "bank", "base", "bath", "bear", "beat", "been", "beer", "bell", "belt", "best", "bird",
        "blow", "blue", "boat", "body", "bomb", "bond", "bone", "book", "boom", "born", "boss",
        "both", "bowl", "bulk", "burn", "bush", "busy", "cafe", "cake", "calm", "came", "camp",
        "card", "care", "case", "cash", "cast", "cell", "chat", "chip", "city", "club", "coal",
        "coat", "code", "cold", "come", "cook", "cool", "cope", "copy", "core", "cost", "crew",
        "crop", "dark", "data", "date", "dawn", "days", "dead", "deal", "dear", "debt", "deep",
        "deny", "desk", "dial", "diet", "disc", "disk", "does", "done", "door", "dose", "down",
        "draw", "drew", "drop", "drug", "dual", "duke", "dust", "duty", "each", "earn", "ease",
        "east", "easy", "edge", "else", "even", "ever", "evil", "exit", "face", "fact", "fail",
        "fair", "fall", "farm", "fast", "fate", "fear", "feed", "feel", "feet", "fell", "felt",
        "file", "fill", "film", "find", "fine", "fire", "firm", "fish", "five", "flat", "flow",
        "food", "foot", "form", "fort", "four", "free", "from", "fuel", "full", "fund", "gain",
        "game", "gate", "gave", "gear", "gene", "gift", "girl", "give", "glad", "goal", "goes",
        "gold", "golf", "gone", "good", "gray", "grew", "grey", "grow", "gulf", "hair", "half",
        "hall", "hand", "hang", "hard", "harm", "hate", "have", "head", "hear", "heat", "held",
        "help", "here", "hero", "high", "hill", "hire", "hold", "hole", "holy", "home", "hope",
        "host", "hour", "huge", "hung", "hunt", "hurt", "idea", "inch", "into", "iron", "item",
        "join", "jump", "jury", "just", "keen", "keep", "kept", "kick", "kill", "kind", "king",
        "knee", "knew", "know", "lack", "lady", "laid", "lake", "land", "lane", "last", "late",
        "lead", "left", "less", "life", "lift", "like", "line", "link", "list", "live", "load",
        "loan", "lock", "logo", "long", "look", "lord", "lose", "loss", "lost", "love", "luck",
        "made", "mail", "main", "make", "male", "many", "mark", "mass", "meal", "mean", "meat",
        "meet", "menu", "mere",
    ]
}

/// The separators that a freshly built dictionary holds.
pub open spec fn standard_separators() -> Seq<&'static str> {
    seq!["-", "_", ".", ",", "+", "=", "~", ":", "/", "*", "!", "^"]
}

/// A non-empty string that starts with a lower-case ASCII letter.
pub open spec fn starts_with_letter(s: Seq<char>) -> bool {
    s.len() > 0 && 'a' <= s[0] && s[0] <= 'z'
}

/// A string of one character that is not a lower-case ASCII letter.
pub open spec fn is_symbol(s: Seq<char>) -> bool {
    s.len() == 1 && !('a' <= s[0] && s[0] <= 'z')
}

/// Every standard word starts with a letter, and every standard separator is
/// a single symbol.
proof fn lemma_standard_lists()
    ensures
        standard_words().len() == 256,
        standard_separators().len() == 12,
        forall|k: int|
            0 <= k < standard_words().len() ==> starts_with_letter(#[trigger] standard_words()[k]@),
        forall|k: int|
            0 <= k < standard_separators().len() ==> is_symbol(#[trigger] standard_separators()[k]@),
{
    reveal_strlit("able");
    reveal_strlit("acid");
    reveal_strlit("aged");
    reveal_strlit("also");
    reveal_strlit("area");
    reveal_strlit("army");
    reveal_strlit("away");
    reveal_strlit("baby");
    reveal_strlit("back");
    reveal_strlit("ball");
    reveal_strlit("band");
    reveal_strlit("bank");
    reveal_strlit("base");
    reveal_strlit("bath");
    reveal_strlit("bear");
    reveal_strlit("beat");
    reveal_strlit("been");
    reveal_strlit("beer");
    reveal_strlit("bell");
    reveal_strlit("belt");
    reveal_strlit("best");
    reveal_strlit("bird");
    reveal_strlit("blow");
    reveal_strlit("blue");
    reveal_strlit("boat");
    reveal_strlit("body");
    reveal_strlit("bomb");
    reveal_strlit("bond");
    reveal_strlit("bone");
    reveal_strlit("book");
    reveal_strlit("boom");
    reveal_strlit("born");
    reveal_strlit("boss");
    reveal_strlit("both");
    reveal_strlit("bowl");
    reveal_strlit("bulk");
    reveal_strlit("burn");
    reveal_strlit("bush");
    reveal_strlit("busy");
    reveal_strlit("cafe");
    reveal_strlit("cake");
    reveal_strlit("calm");
    reveal_strlit("came");
    reveal_strlit("camp");
    reveal_strlit("card");
    reveal_strlit("care");
    reveal_strlit("case");
    reveal_strlit("cash");
    reveal_strlit("cast");
    reveal_strlit("cell");
    reveal_strlit("chat");
    reveal_strlit("chip");
    reveal_strlit("city");
    reveal_strlit("club");
    reveal_strlit("coal");
    reveal_strlit("coat");
    reveal_strlit("code");
    reveal_strlit("cold");
    reveal_strlit("come");
    reveal_strlit("cook");
    reveal_strlit("cool");
    reveal_strlit("cope");
    reveal_strlit("copy");
    reveal_strlit("core");
    reveal_strlit("cost");
    reveal_strlit("crew");
    reveal_strlit("crop");
    reveal_strlit("dark");
    reveal_strlit("data");
    reveal_strlit("date");
    reveal_strlit("dawn");
    reveal_strlit("days");
    reveal_strlit("dead");
    reveal_strlit("deal");
    reveal_strlit("dear");
    reveal_strlit("debt");
    reveal_strlit("deep");
    reveal_strlit("deny");
    reveal_strlit("desk");
    reveal_strlit("dial");
    reveal_strlit("diet");
    reveal_strlit("disc");
    reveal_strlit("disk");
    reveal_strlit("does");
    reveal_strlit("done");
    reveal_strlit("door");
    reveal_strlit("dose");
    reveal_strlit("down");
    reveal_strlit("draw");
    reveal_strlit("drew");
    reveal_strlit("drop");
    reveal_strlit("drug");
    reveal_strlit("dual");
    reveal_strlit("duke");
    reveal_strlit("dust");
    reveal_strlit("duty");
    reveal_strlit("each");
    reveal_strlit("earn");
    reveal_strlit("ease");
    reveal_strlit("east");
    reveal_strlit("easy");
    reveal_strlit("edge");
    reveal_strlit("else");
    reveal_strlit("even");
    reveal_strlit("ever");
    reveal_strlit("evil");
    reveal_strlit("exit");
    reveal_strlit("face");
    reveal_strlit("fact");
    reveal_strlit("fail");
    reveal_strlit("fair");
    reveal_strlit("fall");
    reveal_strlit("farm");
    reveal_strlit("fast");
    reveal_strlit("fate");
    reveal_strlit("fear");
    reveal_strlit("feed");
    reveal_strlit("feel");
    reveal_strlit("feet");
    reveal_strlit("fell");
    reveal_strlit("felt");
    reveal_strlit("file");
    reveal_strlit("fill");
    reveal_strlit("film");
    reveal_strlit("find");
    reveal_strlit("fine");
    reveal_strlit("fire");
    reveal_strlit("firm");
    reveal_strlit("fish");
    reveal_strlit("five");
    reveal_strlit("flat");
    reveal_strlit("flow");
    reveal_strlit("food");
    reveal_strlit("foot");
    reveal_strlit("form");
    reveal_strlit("fort");
    reveal_strlit("four");
    reveal_strlit("free");
    reveal_strlit("from");
    reveal_strlit("fuel");
    reveal_strlit("full");
    reveal_strlit("fund");
    reveal_strlit("gain");
    reveal_strlit("game");
    reveal_strlit("gate");
    reveal_strlit("gave");
    reveal_strlit("gear");
    reveal_strlit("gene");
    reveal_strlit("gift");
    reveal_strlit("girl");
    reveal_strlit("give");
    reveal_strlit("glad");
    reveal_strlit("goal");
    reveal_strlit("goes");
    reveal_strlit("gold");
    reveal_strlit("golf");
    reveal_strlit("gone");
    reveal_strlit("good");
    reveal_strlit("gray");
    reveal_strlit("grew");
    reveal_strlit("grey");
    reveal_strlit("grow");
    reveal_strlit("gulf");
    reveal_strlit("hair");
    reveal_strlit("half");
    reveal_strlit("hall");
    reveal_strlit("hand");
    reveal_strlit("hang");
    reveal_strlit("hard");
    reveal_strlit("harm");
    reveal_strlit("hate");
    reveal_strlit("have");
    reveal_strlit("head");
    reveal_strlit("hear");
    reveal_strlit("heat");
    reveal_strlit("held");
    reveal_strlit("help");
    reveal_strlit("here");
    reveal_strlit("hero");
    reveal_strlit("high");
    reveal_strlit("hill");
    reveal_strlit("hire");
    reveal_strlit("hold");
    reveal_strlit("hole");
    reveal_strlit("holy");
    reveal_strlit("home");
    reveal_strlit("hope");
    reveal_strlit("host");
    reveal_strlit("hour");
    reveal_strlit("huge");
    reveal_strlit("hung");
    reveal_strlit("hunt");
    reveal_strlit("hurt");
    reveal_strlit("idea");
    reveal_strlit("inch");
    reveal_strlit("into");
    reveal_strlit("iron");
    reveal_strlit("item");
    reveal_strlit("join");
    reveal_strlit("jump");
    reveal_strlit("jury");
    reveal_strlit("just");
    reveal_strlit("keen");
    reveal_strlit("keep");
    reveal_strlit("kept");
    reveal_strlit("kick");
    reveal_strlit("kill");
    reveal_strlit("kind");
    reveal_strlit("king");
    reveal_strlit("knee");
    reveal_strlit("knew");
    reveal_strlit("know");
    reveal_strlit("lack");
    reveal_strlit("lady");
    reveal_strlit("laid");
    reveal_strlit("lake");
    reveal_strlit("land");
    reveal_strlit("lane");
    reveal_strlit("last");
    reveal_strlit("late");
    reveal_strlit("lead");
    reveal_strlit("left");
    reveal_strlit("less");
    reveal_strlit("life");
    reveal_strlit("lift");
    reveal_strlit("like");
    reveal_strlit("line");
    reveal_strlit("link");
    reveal_strlit("list");
    reveal_strlit("live");
    reveal_strlit("load");
    reveal_strlit("loan");
    reveal_strlit("lock");
    reveal_strlit("logo");
    reveal_strlit("long");
    reveal_strlit("look");
    reveal_strlit("lord");
    reveal_strlit("lose");
    reveal_strlit("loss");
    reveal_strlit("lost");
    reveal_strlit("love");
    reveal_strlit("luck");
    reveal_strlit("made");
    reveal_strlit("mail");
    reveal_strlit("main");
    reveal_strlit("make");
    reveal_strlit("male");
    reveal_strlit("many");
    reveal_strlit("mark");
    reveal_strlit("mass");
    reveal_strlit("meal");
    reveal_strlit("mean");
    reveal_strlit("meat");
    reveal_strlit("meet");
    reveal_strlit("menu");
    reveal_strlit("mere");
    reveal_strlit("-");
    reveal_strlit("_");
    reveal_strlit(".");
    reveal_strlit(",");
    reveal_strlit("+");
    reveal_strlit("=");
    reveal_strlit("~");
    reveal_strlit(":");
    reveal_strlit("/");
    reveal_strlit("*");
    reveal_strlit("!");
    reveal_strlit("^");
    let w = standard_words();
    assert(starts_with_letter(w[0]@));
    assert(starts_with_letter(w[1]@));
    assert(starts_with_letter(w[2]@));
    assert(starts_with_letter(w[3]@));
    assert(starts_with_letter(w[4]@));
    assert(starts_with_letter(w[5]@));
    assert(starts_with_letter(w[6]@));
    assert(starts_with_letter(w[7]@));
    assert(starts_with_letter(w[8]@));
    assert(starts_with_letter(w[9]@));
    assert(starts_with_letter(w[10]@));
    assert(starts_with_letter(w[11]@));
    assert(starts_with_letter(w[12]@));
    assert(starts_with_letter(w[13]@));
    assert(starts_with_letter(w[14]@));
    assert(starts_with_letter(w[15]@));
    assert(starts_with_letter(w[16]@));
    assert(starts_with_letter(w[17]@));
    assert(starts_with_letter(w[18]@));
    assert(starts_with_letter(w[19]@));
    assert(starts_with_letter(w[20]@));
    assert(starts_with_letter(w[21]@));
    assert(starts_with_letter(w[22]@));
    assert(starts_with_letter(w[23]@));
    assert(starts_with_letter(w[24]@));
    assert(starts_with_letter(w[25]@));
    assert(starts_with_letter(w[26]@));
    assert(starts_with_letter(w[27]@));
    assert(starts_with_letter(w[28]@));
    assert(starts_with_letter(w[29]@));
    assert(starts_with_letter(w[30]@));
    assert(starts_with_letter(w[31]@));
    assert(starts_with_letter(w[32]@));
    assert(starts_with_letter(w[33]@));
    assert(starts_with_letter(w[34]@));
    assert(starts_with_letter(w[35]@));
    assert(starts_with_letter(w[36]@));
    assert(starts_with_letter(w[37]@));
    assert(starts_with_letter(w[38]@));
    assert(starts_with_letter(w[39]@));
    assert(starts_with_letter(w[40]@));
    assert(starts_with_letter(w[41]@));
    assert(starts_with_letter(w[42]@));
    assert(starts_with_letter(w[43]@));
    assert(starts_with_letter(w[44]@));
    assert(starts_with_letter(w[45]@));
    assert(starts_with_letter(w[46]@));
    assert(starts_with_letter(w[47]@));
    assert(starts_with_letter(w[48]@));
    assert(starts_with_letter(w[49]@));
    assert(starts_with_letter(w[50]@));
    assert(starts_with_letter(w[51]@));
    assert(starts_with_letter(w[52]@));
    assert(starts_with_letter(w[53]@));
    assert(starts_with_letter(w[54]@));
    assert(starts_with_letter(w[55]@));
    assert(starts_with_letter(w[56]@));
    assert(starts_with_letter(w[57]@));
    assert(starts_with_letter(w[58]@));
    assert(starts_with_letter(w[59]@));
    assert(starts_with_letter(w[60]@));
    assert(starts_with_letter(w[61]@));
    assert(starts_with_letter(w[62]@));
    assert(starts_with_letter(w[63]@));
    assert(starts_with_letter(w[64]@));
    assert(starts_with_letter(w[65]@));
    assert(starts_with_letter(w[66]@));
    assert(starts_with_letter(w[67]@));
    assert(starts_with_letter(w[68]@));
    assert(starts_with_letter(w[69]@));
    assert(starts_with_letter(w[70]@));
    assert(starts_with_letter(w[71]@));
    assert(starts_with_letter(w[72]@));
    assert(starts_with_letter(w[73]@));
    assert(starts_with_letter(w[74]@));
    assert(starts_with_letter(w[75]@));
    assert(starts_with_letter(w[76]@));
    assert(starts_with_letter(w[77]@));
    assert(starts_with_letter(w[78]@));
    assert(starts_with_letter(w[79]@));
    assert(starts_with_letter(w[80]@));
    assert(starts_with_letter(w[81]@));
    assert(starts_with_letter(w[82]@));
    assert(starts_with_letter(w[83]@));
    assert(starts_with_letter(w[84]@));
    assert(starts_with_letter(w[85]@));
    assert(starts_with_letter(w[86]@));
    assert(starts_with_letter(w[87]@));
    assert(starts_with_letter(w[88]@));
    assert(starts_with_letter(w[89]@));
    assert(starts_with_letter(w[90]@));
    assert(starts_with_letter(w[91]@));
    assert(starts_with_letter(w[92]@));
    assert(starts_with_letter(w[93]@));
    assert(starts_with_letter(w[94]@));
    assert(starts_with_letter(w[95]@));
    assert(starts_with_letter(w[96]@));
    assert(starts_with_letter(w[97]@));
    assert(starts_with_letter(w[98]@));
    assert(starts_with_letter(w[99]@));
    assert(starts_with_letter(w[100]@));
    assert(starts_with_letter(w[101]@));
    assert(starts_with_letter(w[102]@));
    assert(starts_with_letter(w[103]@));
    assert(starts_with_letter(w[104]@));
    assert(starts_with_letter(w[105]@));
    assert(starts_with_letter(w[106]@));
    assert(starts_with_letter(w[107]@));
    assert(starts_with_letter(w[108]@));
    assert(starts_with_letter(w[109]@));
    assert(starts_with_letter(w[110]@));
    assert(starts_with_letter(w[111]@));
    assert(starts_with_letter(w[112]@));
    assert(starts_with_letter(w[113]@));
    assert(starts_with_letter(w[114]@));
    assert(starts_with_letter(w[115]@));
    assert(starts_with_letter(w[116]@));
    assert(starts_with_letter(w[117]@));
    assert(starts_with_letter(w[118]@));
    assert(starts_with_letter(w[119]@));
    assert(starts_with_letter(w[120]@));
    assert(starts_with_letter(w[121]@));
    assert(starts_with_letter(w[122]@));
    assert(starts_with_letter(w[123]@));
    assert(starts_with_letter(w[124]@));
    assert(starts_with_letter(w[125]@));
    assert(starts_with_letter(w[126]@));
    assert(starts_with_letter(w[127]@));
    assert(starts_with_letter(w[128]@));
    assert(starts_with_letter(w[129]@));
    assert(starts_with_letter(w[130]@));
    assert(starts_with_letter(w[131]@));
    assert(starts_with_letter(w[132]@));
    assert(starts_with_letter(w[133]@));
    assert(starts_with_letter(w[134]@));
    assert(starts_with_letter(w[135]@));
    assert(starts_with_letter(w[136]@));
    assert(starts_with_letter(w[137]@));
    assert(starts_with_letter(w[138]@));
    assert(starts_with_letter(w[139]@));
    assert(starts_with_letter(w[140]@));
    assert(starts_with_letter(w[141]@));
    assert(starts_with_letter(w[142]@));
    assert(starts_with_letter(w[143]@));
    assert(starts_with_letter(w[144]@));
    assert(starts_with_letter(w[145]@));
    assert(starts_with_letter(w[146]@));
    assert(starts_with_letter(w[147]@));
    assert(starts_with_letter(w[148]@));
    assert(starts_with_letter(w[149]@));
    assert(starts_with_letter(w[150]@));
    assert(starts_with_letter(w[151]@));
    assert(starts_with_letter(w[152]@));
    assert(starts_with_letter(w[153]@));
    assert(starts_with_letter(w[154]@));
    assert(starts_with_letter(w[155]@));
    assert(starts_with_letter(w[156]@));
    assert(starts_with_letter(w[157]@));
    assert(starts_with_letter(w[158]@));
    assert(starts_with_letter(w[159]@));
    assert(starts_with_letter(w[160]@));
    assert(starts_with_letter(w[161]@));
    assert(starts_with_letter(w[162]@));
    assert(starts_with_letter(w[163]@));
    assert(starts_with_letter(w[164]@));
    assert(starts_with_letter(w[165]@));
    assert(starts_with_letter(w[166]@));
    assert(starts_with_letter(w[167]@));
    assert(starts_with_letter(w[168]@));
    assert(starts_with_letter(w[169]@));
    assert(starts_with_letter(w[170]@));
    assert(starts_with_letter(w[171]@));
    assert(starts_with_letter(w[172]@));
    assert(starts_with_letter(w[173]@));
    assert(starts_with_letter(w[174]@));
    assert(starts_with_letter(w[175]@));
    assert(starts_with_letter(w[176]@));
    assert(starts_with_letter(w[177]@));
    assert(starts_with_letter(w[178]@));
    assert(starts_with_letter(w[179]@));
    assert(starts_with_letter(w[180]@));
    assert(starts_with_letter(w[181]@));
    assert(starts_with_letter(w[182]@));
    assert(starts_with_letter(w[183]@));
    assert(starts_with_letter(w[184]@));
    assert(starts_with_letter(w[185]@));
    assert(starts_with_letter(w[186]@));
    assert(starts_with_letter(w[187]@));
    assert(starts_with_letter(w[188]@));
    assert(starts_with_letter(w[189]@));
    assert(starts_with_letter(w[190]@));
    assert(starts_with_letter(w[191]@));
    assert(starts_with_letter(w[192]@));
    assert(starts_with_letter(w[193]@));
    assert(starts_with_letter(w[194]@));
    assert(starts_with_letter(w[195]@));
    assert(starts_with_letter(w[196]@));
    assert(starts_with_letter(w[197]@));
    assert(starts_with_letter(w[198]@));
    assert(starts_with_letter(w[199]@));
    assert(starts_with_letter(w[200]@));
    assert(starts_with_letter(w[201]@));
    assert(starts_with_letter(w[202]@));
    assert(starts_with_letter(w[203]@));
    assert(starts_with_letter(w[204]@));
    assert(starts_with_letter(w[205]@));
    assert(starts_with_letter(w[206]@));
    assert(starts_with_letter(w[207]@));
    assert(starts_with_letter(w[208]@));
    assert(starts_with_letter(w[209]@));
    assert(starts_with_letter(w[210]@));
    assert(starts_with_letter(w[211]@));
    assert(starts_with_letter(w[212]@));
    assert(starts_with_letter(w[213]@));
    assert(starts_with_letter(w[214]@));
    assert(starts_with_letter(w[215]@));
    assert(starts_with_letter(w[216]@));
    assert(starts_with_letter(w[217]@));
    assert(starts_with_letter(w[218]@));
    assert(starts_with_letter(w[219]@));
    assert(starts_with_letter(w[220]@));
    assert(starts_with_letter(w[221]@));
    assert(starts_with_letter(w[222]@));
    assert(starts_with_letter(w[223]@));
    assert(starts_with_letter(w[224]@));
    assert(starts_with_letter(w[225]@));
    assert(starts_with_letter(w[226]@));
    assert(starts_with_letter(w[227]@));
    assert(starts_with_letter(w[228]@));
    assert(starts_with_letter(w[229]@));
    assert(starts_with_letter(w[230]@));
    assert(starts_with_letter(w[231]@));
    assert(starts_with_letter(w[232]@));
    assert(starts_with_letter(w[233]@));
    assert(starts_with_letter(w[234]@));
    assert(starts_with_letter(w[235]@));
    assert(starts_with_letter(w[236]@));
    assert(starts_with_letter(w[237]@));
    assert(starts_with_letter(w[238]@));
    assert(starts_with_letter(w[239]@));
    assert(starts_with_letter(w[240]@));
    assert(starts_with_letter(w[241]@));
    assert(starts_with_letter(w[242]@));
    assert(starts_with_letter(w[243]@));
    assert(starts_with_letter(w[244]@));
    assert(starts_with_letter(w[245]@));
    assert(starts_with_letter(w[246]@));
    assert(starts_with_letter(w[247]@));
    assert(starts_with_letter(w[248]@));
    assert(starts_with_letter(w[249]@));
    assert(starts_with_letter(w[250]@));
    assert(starts_with_letter(w[251]@));
    assert(starts_with_letter(w[252]@));
    assert(starts_with_letter(w[253]@));
    assert(starts_with_letter(w[254]@));
    assert(starts_with_letter(w[255]@));
    assert forall|k: int| 0 <= k < w.len() implies starts_with_letter(#[trigger] w[k]@) by {
        assert(k == 0 || k == 1 || k == 2 || k == 3 || k == 4 || k == 5 || k == 6 || k == 7 || k == 8 || k == 9 || k == 10 || k == 11 || k == 12 || k == 13 || k == 14 || k == 15 || k == 16 || k == 17 || k == 18 || k == 19 || k == 20 || k == 21 || k == 22 || k == 23 || k == 24 || k == 25 || k == 26 || k == 27 || k == 28 || k == 29 || k == 30 || k == 31 || k == 32 || k == 33 || k == 34 || k == 35 || k == 36 || k == 37 || k == 38 || k == 39 || k == 40 || k == 41 || k == 42 || k == 43 || k == 44 || k == 45 || k == 46 || k == 47 || k == 48 || k == 49 || k == 50 || k == 51 || k == 52 || k == 53 || k == 54 || k == 55 || k == 56 || k == 57 || k == 58 || k == 59 || k == 60 || k == 61 || k == 62 || k == 63 || k == 64 || k == 65 || k == 66 || k == 67 || k == 68 || k == 69 || k == 70 || k == 71 || k == 72 || k == 73 || k == 74 || k == 75 || k == 76 || k == 77 || k == 78 || k == 79 || k == 80 || k == 81 || k == 82 || k == 83 || k == 84 || k == 85 || k == 86 || k == 87 || k == 88 || k == 89 || k == 90 || k == 91 || k == 92 || k == 93 || k == 94 || k == 95 || k == 96 || k == 97 || k == 98 || k == 99 || k == 100 || k == 101 || k == 102 || k == 103 || k == 104 || k == 105 || k == 106 || k == 107 || k == 108 || k == 109 || k == 110 || k == 111 || k == 112 || k == 113 || k == 114 || k == 115 || k == 116 || k == 117 || k == 118 || k == 119 || k == 120 || k == 121 || k == 122 || k == 123 || k == 124 || k == 125 || k == 126 || k == 127 || k == 128 || k == 129 || k == 130 || k == 131 || k == 132 || k == 133 || k == 134 || k == 135 || k == 136 || k == 137 || k == 138 || k == 139 || k == 140 || k == 141 || k == 142 || k == 143 || k == 144 || k == 145 || k == 146 || k == 147 || k == 148 || k == 149 || k == 150 || k == 151 || k == 152 || k == 153 || k == 154 || k == 155 || k == 156 || k == 157 || k == 158 || k == 159 || k == 160 || k == 161 || k == 162 || k == 163 || k == 164 || k == 165 || k == 166 || k == 167 || k == 168 || k == 169 || k == 170 || k == 171 || k == 172 || k == 173 || k == 174 || k == 175 || k == 176 || k == 177 || k == 178 || k == 179 || k == 180 || k == 181 || k == 182 || k == 183 || k == 184 || k == 185 || k == 186 || k == 187 || k == 188 || k == 189 || k == 190 || k == 191 || k == 192 || k == 193 || k == 194 || k == 195 || k == 196 || k == 197 || k == 198 || k == 199 || k == 200 || k == 201 || k == 202 || k == 203 || k == 204 || k == 205 || k == 206 || k == 207 || k == 208 || k == 209 || k == 210 || k == 211 || k == 212 || k == 213 || k == 214 || k == 215 || k == 216 || k == 217 || k == 218 || k == 219 || k == 220 || k == 221 || k == 222 || k == 223 || k == 224 || k == 225 || k == 226 || k == 227 || k == 228 || k == 229 || k == 230 || k == 231 || k == 232 || k == 233 || k == 234 || k == 235 || k == 236 || k == 237 || k == 238 || k == 239 || k == 240 || k == 241 || k == 242 || k == 243 || k == 244 || k == 245 || k == 246 || k == 247 || k == 248 || k == 249 || k == 250 || k == 251 || k == 252 || k == 253 || k == 254 || k == 255);
    }
    let t = standard_separators();
    assert(is_symbol(t[0]@));
    assert(is_symbol(t[1]@));
    assert(is_symbol(t[2]@));
    assert(is_symbol(t[3]@));
    assert(is_symbol(t[4]@));
    assert(is_symbol(t[5]@));
    assert(is_symbol(t[6]@));
    assert(is_symbol(t[7]@));
    assert(is_symbol(t[8]@));
    assert(is_symbol(t[9]@));
    assert(is_symbol(t[10]@));
    assert(is_symbol(t[11]@));
    assert forall|k: int| 0 <= k < t.len() implies is_symbol(#[trigger] t[k]@) by {
        assert(k == 0 || k == 1 || k == 2 || k == 3 || k == 4 || k == 5 || k == 6 || k == 7 || k == 8 || k == 9 || k == 10 || k == 11);
    }
}

/// The word list and the separators of passphrases, fixed once built.
pub struct Dictionary {
    words: Vec<&'static str>,
    separators: Vec<&'static str>,
}

impl Dictionary {
    /// The words that passphrases are made of.
    pub closed spec fn word_seq(&self) -> Seq<&'static str> {
        self.words@
    }

    /// The tokens that join the words of a passphrase.
    pub closed spec fn separator_seq(&self) -> Seq<&'static str> {
        self.separators@
    }

    /// Both lists hold at least one entry, no entry is empty, and no string is
    /// both a word and a separator.
    pub open spec fn wf(&self) -> bool {
        &&& self.word_seq().len() > 0
        &&& self.separator_seq().len() > 0
        &&& forall|k: int|
            0 <= k < self.word_seq().len() ==> #[trigger] self.word_seq()[k]@.len() > 0
        &&& forall|k: int|
            0 <= k < self.separator_seq().len() ==> #[trigger] self.separator_seq()[k]@.len() > 0
        &&& forall|j: int, k: int|
            0 <= j < self.word_seq().len() && 0 <= k < self.separator_seq().len()
                ==> #[trigger] self.word_seq()[j]@ != #[trigger] self.separator_seq()[k]@
    }

    /// Builds the dictionary of the standard words and separators.
    pub fn new() -> (r: Dictionary)
        ensures
            r.wf(),
            r.word_seq() == standard_words(),
            r.separator_seq() == standard_separators(),
    {
        let words = vec![
            "able", "acid", "aged", "also", "area", "army", "away", "baby", "back", "ball",
            "band", "bank", "base", "bath", "bear", "beat", "been", "beer", "bell", "belt",
            "best", "bird", "blow", "blue", "boat", "body", "bomb", "bond", "bone", "book",
            "boom", "born", "boss", "both", "bowl", "bulk", "burn", "bush", "busy", "cafe",
            "cake", "calm", "came", "camp", "card", "care", "case", "cash", "cast", "cell",
            "chat", "chip", "city", "club", "coal", "coat", "code", "cold", "come", "cook",
            "cool", "cope", "copy", "core", "cost", "crew", "crop", "dark", "data", "date",
            "dawn", "days", "dead", "deal", "dear", "debt", "deep", "deny", "desk", "dial",
            "diet", "disc", "disk", "does", "done", "door", "dose", "down", "draw", "drew",
            "drop", "drug", "dual", "duke", "dust", "duty", "each", "earn", "ease", "east",
            "easy", "edge", "else", "even", "ever", "evil", "exit", "face", "fact", "fail",
            "fair", "fall", "farm", "fast", "fate", "fear", "feed", "feel", "feet", "fell",
            "felt", "file", "fill", "film", "find", "fine", "fire", "firm", "fish", "five",
            "flat", "flow", "food", "foot", "form", "fort", "four", "free", "from", "fuel",
            "full", "fund", "gain", "game", "gate", "gave", "gear", "gene", "gift", "girl",
            "give", "glad", "goal", "goes", "gold", "golf", "gone", "good", "gray", "grew",
            "grey", "grow", "gulf", "hair", "half", "hall", "hand", "hang", "hard", "harm",
            "hate", "have", "head", "hear", "heat", "held", "help", "here", "hero", "high",
            "hill", "hire", "hold", "hole", "holy", "home", "hope", "host", "hour", "huge",
            "hung", "hunt", "hurt", "idea", "inch", "into", "iron", "item", "join", "jump",
            "jury", "just", "keen", "keep", "kept", "kick", "kill", "kind", "king", "knee",
            "knew", "know", "lack", "lady", "laid", "lake", "land", "lane", "last", "late",
            "lead", "left", "less", "life", "lift", "like", "line", "link", "list", "live",
            "load", "loan", "lock", "logo", "long", "look", "lord", "lose", "loss", "lost",
            "love", "luck", "made", "mail", "main", "make", "male", "many", "mark", "mass",
            "meal", "mean", "meat", "meet", "menu", "mere",
        ];
        let separators = vec!["-", "_", ".", ",", "+", "=", "~", ":", "/", "*", "!", "^"];
        proof {
            assert(words@ =~= standard_words());
            assert(separators@ =~= standard_separators());
            lemma_standard_lists();
            assert forall|j: int, k: int|
                0 <= j < words@.len() && 0 <= k < separators@.len() implies #[trigger] words@[j]@
                != #[trigger] separators@[k]@ by {
                assert(starts_with_letter(words@[j]@));
                assert(is_symbol(separators@[k]@));
            }
        }
        Dictionary { words, separators }
    }

    /// The full word list.
    pub fn words(&self) -> (r: &Vec<&'static str>)
        ensures
            r@ == self.word_seq(),
    {
        &self.words
    }

    /// The full separator list.
    pub fn separators(&self) -> (r: &Vec<&'static str>)
        ensures
            r@ == self.separator_seq(),
    {
        &self.separators
    }

    /// The universe of a listable character set, in increasing order of code
    /// point; `None` for the Unicode and passphrase sets.
    pub fn list_from_charset(&self, cs: CharSet) -> (r: Option<Vec<char>>)
        ensures
            r is Some <==> is_enumerable(cs),
            r matches Some(v) ==> {
                &&& forall|c: char| v@.contains(c) <==> in_universe(cs, c)
                &&& forall|j: int, k: int|
                    0 <= j < k < v@.len() ==> (v@[j] as int) < (v@[k] as int)
            },
    {
        if cs == CharSet::Unicode || cs == CharSet::Xkcd {
            return None;
        }
        let mut out: Vec<char> = Vec::new();
        let mut code: u32 = 0;
        while code < 0x100
            invariant
                is_enumerable(cs),
                code <= 0x100,
                forall|j: int|
                    0 <= j < out@.len() ==> in_universe(cs, #[trigger] out@[j]) && (out@[j] as int)
                        < code,
                forall|j: int, k: int|
                    0 <= j < k < out@.len() ==> (out@[j] as int) < (out@[k] as int),
                forall|c: char| (c as int) < code && #[trigger] in_universe(cs, c) ==> out@.contains(c),
            decreases 0x100 - code,
        {
            let c = (code as u8) as char;
            let ghost prev = out@;
            if universe_contains(cs, c) {
                out.push(c);
                assert(out@[out@.len() - 1] == c);
            }
            proof {
                assert forall|d: char|
                    (d as int) <= code && #[trigger] in_universe(cs, d) implies out@.contains(d) by {
                    if (d as int) == code {
                        assert(d == c);
                        assert(out@[out@.len() - 1] == d);
                    } else {
                        assert(prev.contains(d));
                        let j = choose|j: int| 0 <= j < prev.len() && prev[j] == d;
                        assert(out@[j] == d);
                    }
                }
            }
            code = code + 1;
        }
        proof {
            assert forall|c: char| #[trigger] out@.contains(c) implies in_universe(cs, c) by {
                let j = choose|j: int| 0 <= j < out@.len() && out@[j] == c;
                assert(in_universe(cs, out@[j]));
            }
            assert forall|c: char| in_universe(cs, c) implies #[trigger] out@.contains(c) by {
                lemma_enumerable_universe_is_latin1(cs, c);
            }
        }
        Some(out)
    }
}

} // verus!
