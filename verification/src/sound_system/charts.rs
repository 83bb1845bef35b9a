//! Tables for showing a sound system and the course of its sound changes,
//! as rows of cells of text.
use super::display::phone_text;
use super::phone::{Backness, ConsonantManner, ConsonantPlace, Height, Phone};
use super::resolver::ipa_of;
use super::rules::{History, Transformation};
use super::system::SoundSystem;
use crate::text::{chars_of, join, joined, string_of};
use crate::wgl::scan::{trim, trimmed};
use vstd::prelude::*;
use vstd::string::StringExecFns;

verus! {

/// The manners of articulation in the order of the rows of the consonant
/// chart.
pub open spec fn chart_manners() -> Seq<ConsonantManner> {
    seq![
        ConsonantManner::Nasal,
        ConsonantManner::Stop,
        ConsonantManner::SibilantFricative,
        ConsonantManner::Fricative,
        ConsonantManner::Trill,
        ConsonantManner::Tap,
        ConsonantManner::LateralFricative,
        ConsonantManner::Approximant,
        ConsonantManner::LateralApproximant,
        ConsonantManner::LateralTap,
    ]
}

/// The places of articulation in the order of the columns of the consonant
/// chart. Labio-velar consonants stand in the velar column.
pub open spec fn chart_places() -> Seq<ConsonantPlace> {
    seq![
        ConsonantPlace::Bilabial,
        ConsonantPlace::LabioDental,
        ConsonantPlace::Dental,
        ConsonantPlace::Alveolar,
        ConsonantPlace::PostAlveolar,
        ConsonantPlace::Retroflex,
        ConsonantPlace::Palatal,
        ConsonantPlace::Velar,
        ConsonantPlace::Uvular,
        ConsonantPlace::Pharyngeal,
        ConsonantPlace::Glottal,
    ]
}

/// The heights in the order of the rows of the vowel chart.
pub open spec fn chart_heights() -> Seq<Height> {
    seq![
        Height::Close,
        Height::NearClose,
        Height::CloseMid,
        Height::Mid,
        Height::OpenMid,
        Height::NearOpen,
        Height::Open,
    ]
}

/// The backnesses in the order of the columns of the vowel chart.
pub open spec fn chart_backnesses() -> Seq<Backness> {
    seq![Backness::Front, Backness::Central, Backness::Back]
}

/// Whether a phone is a consonant of the given cell of the consonant chart.
pub open spec fn in_consonant_cell(phone: Phone, manner: ConsonantManner, place: ConsonantPlace) -> bool {
    match phone {
        Phone::Consonant(consonant) => consonant.manner == manner && (consonant.place == place || (
        place == ConsonantPlace::Velar && consonant.place == ConsonantPlace::LabioVelar)),
        _ => false,
    }
}

/// Whether a phone is a vowel of the given cell of the vowel chart.
pub open spec fn in_vowel_cell(phone: Phone, height: Height, backness: Backness) -> bool {
    match phone {
        Phone::Vowel(vowel) => vowel.height == height && vowel.backness == backness,
        _ => false,
    }
}

/// The text of a cell: for each phone in turn its character if it belongs
/// to the cell and nothing if not, a blank between each two, and the blanks
/// at the ends taken off.
pub open spec fn cell_text(phones: Seq<Phone>, belongs: spec_fn(Phone) -> bool) -> Seq<char> {
    trimmed(
        joined(Seq::new(phones.len(), |i: int| if belongs(phones[i]) {
            phone_text(phones[i])
        } else {
            Seq::empty()
        }), " "@),
    )
}

/// The consonant chart: a row for each manner, a column for each place.
pub open spec fn consonant_cells(phones: Seq<Phone>) -> Seq<Seq<Seq<char>>> {
    Seq::new(
        chart_manners().len(),
        |row: int|
            Seq::new(
                chart_places().len(),
                |column: int|
                    cell_text(
                        phones,
                        |phone: Phone|
                            in_consonant_cell(phone, chart_manners()[row], chart_places()[column]),
                    ),
            ),
    )
}

/// The vowel chart: a row for each height, a column for each backness.
pub open spec fn vowel_cells(phones: Seq<Phone>) -> Seq<Seq<Seq<char>>> {
    Seq::new(
        chart_heights().len(),
        |row: int|
            Seq::new(
                chart_backnesses().len(),
                |column: int|
                    cell_text(
                        phones,
                        |phone: Phone|
                            in_vowel_cell(phone, chart_heights()[row], chart_backnesses()[column]),
                    ),
            ),
    )
}

/// The word in the place `i`, or nothing if there is none.
pub open spec fn word_at(words: Seq<Seq<char>>, i: int) -> Seq<char> {
    if 0 <= i < words.len() {
        words[i]
    } else {
        Seq::empty()
    }
}

/// What the word in the place `i` was before the rule in the place `rule`.
pub open spec fn word_before(words: Seq<Seq<char>>, history: Seq<History>, rule: int, i: int) -> Seq<
    char,
> {
    if rule <= 0 || rule > history.len() {
        word_at(words, i)
    } else {
        word_at(history[rule - 1].words.deep_view(), i)
    }
}

/// The cell for one rule and one word: what the rule made of the word, or
/// nothing if it left the word as it was.
pub open spec fn change_cell(words: Seq<Seq<char>>, history: Seq<History>, rule: int, i: int) -> Seq<
    char,
> {
    let now = word_at(history[rule].words.deep_view(), i);
    if now == word_before(words, history, rule, i) {
        Seq::empty()
    } else {
        now
    }
}

/// The row of the word in the place `i`: the word, a cell for each rule,
/// and, if there is any output, the word at the end and its phonetic
/// spelling between slashes.
pub open spec fn change_row(
    system: super::system::SoundSystemView,
    words: Seq<Seq<char>>,
    history: Seq<History>,
    output: Seq<Seq<char>>,
    i: int,
) -> Seq<Seq<char>> {
    let changes = seq![word_at(words, i)] + Seq::new(
        history.len(),
        |rule: int| change_cell(words, history, rule, i),
    );
    if output.len() == 0 {
        changes
    } else {
        changes + seq![
            word_at(output, i),
            seq!['/'] + ipa_of(system, word_at(output, i)) + seq!['/'],
        ]
    }
}

/// The head of the table of changes: a title for the words, the names of
/// the rules, and, if there are rules, titles for the word at the end and
/// its phonetic spelling.
pub open spec fn change_titles(history: Seq<History>) -> Seq<Seq<char>> {
    let names = seq!["Generated Word"@] + Seq::new(history.len(), |rule: int| history[rule].rule@);
    if history.len() == 0 {
        names
    } else {
        names + seq!["Final word"@, "IPA"@]
    }
}

fn consonant_cell(phones: &Vec<Phone>, manner: ConsonantManner, place: ConsonantPlace) -> (text:
    String)
    ensures
        text@ == cell_text(phones@, |phone: Phone| in_consonant_cell(phone, manner, place)),
{
    let ghost belongs = |phone: Phone| in_consonant_cell(phone, manner, place);
    let mut parts: Vec<String> = Vec::new();
    let mut i: usize = 0;
    while i < phones.len()
        invariant
            i <= phones.len(),
            belongs == |phone: Phone| in_consonant_cell(phone, manner, place),
            parts.len() == i,
            forall|j: int|
                0 <= j < i ==> (#[trigger] parts[j])@ == if belongs(phones@[j]) {
                    phone_text(phones@[j])
                } else {
                    Seq::empty()
                },
        decreases phones.len() - i,
    {
        let fits = match phones[i] {
            Phone::Consonant(consonant) => consonant.manner == manner && (consonant.place == place
                || (place == ConsonantPlace::Velar && consonant.place
                == ConsonantPlace::LabioVelar)),
            _ => false,
        };
        if fits {
            parts.push(phones[i].to_string());
        } else {
            parts.push(String::new());
        }
        i += 1;
    }
    assert(parts.deep_view() =~= Seq::new(phones@.len(), |i: int| if belongs(phones@[i]) {
        phone_text(phones@[i])
    } else {
        Seq::empty()
    }));
    let mut all = String::new();
    join(&mut all, &parts, " ");
    assert(all@ =~= joined(parts.deep_view(), " "@));
    string_of(&trim(&chars_of(all.as_str())))
}

fn vowel_cell(phones: &Vec<Phone>, height: Height, backness: Backness) -> (text: String)
    ensures
        text@ == cell_text(phones@, |phone: Phone| in_vowel_cell(phone, height, backness)),
{
    let ghost belongs = |phone: Phone| in_vowel_cell(phone, height, backness);
    let mut parts: Vec<String> = Vec::new();
    let mut i: usize = 0;
    while i < phones.len()
        invariant
            i <= phones.len(),
            belongs == |phone: Phone| in_vowel_cell(phone, height, backness),
            parts.len() == i,
            forall|j: int|
                0 <= j < i ==> (#[trigger] parts[j])@ == if belongs(phones@[j]) {
                    phone_text(phones@[j])
                } else {
                    Seq::empty()
                },
        decreases phones.len() - i,
    {
        let fits = match phones[i] {
            Phone::Vowel(vowel) => vowel.height == height && vowel.backness == backness,
            _ => false,
        };
        if fits {
            parts.push(phones[i].to_string());
        } else {
            parts.push(String::new());
        }
        i += 1;
    }
    assert(parts.deep_view() =~= Seq::new(phones@.len(), |i: int| if belongs(phones@[i]) {
        phone_text(phones@[i])
    } else {
        Seq::empty()
    }));
    let mut all = String::new();
    join(&mut all, &parts, " ");
    assert(all@ =~= joined(parts.deep_view(), " "@));
    string_of(&trim(&chars_of(all.as_str())))
}

/// The manners of articulation in the order of the rows of the consonant
/// chart.
pub fn manner_rows() -> (manners: Vec<ConsonantManner>)
    ensures
        manners@ == chart_manners(),
{
    let mut manners: Vec<ConsonantManner> = Vec::new();
    manners.push(ConsonantManner::Nasal);
    manners.push(ConsonantManner::Stop);
    manners.push(ConsonantManner::SibilantFricative);
    manners.push(ConsonantManner::Fricative);
    manners.push(ConsonantManner::Trill);
    manners.push(ConsonantManner::Tap);
    manners.push(ConsonantManner::LateralFricative);
    manners.push(ConsonantManner::Approximant);
    manners.push(ConsonantManner::LateralApproximant);
    manners.push(ConsonantManner::LateralTap);
    assert(manners@ =~= chart_manners());
    manners
}

/// The places of articulation in the order of the columns of the consonant
/// chart.
pub fn place_columns() -> (places: Vec<ConsonantPlace>)
    ensures
        places@ == chart_places(),
{
    let mut places: Vec<ConsonantPlace> = Vec::new();
    places.push(ConsonantPlace::Bilabial);
    places.push(ConsonantPlace::LabioDental);
    places.push(ConsonantPlace::Dental);
    places.push(ConsonantPlace::Alveolar);
    places.push(ConsonantPlace::PostAlveolar);
    places.push(ConsonantPlace::Retroflex);
    places.push(ConsonantPlace::Palatal);
    places.push(ConsonantPlace::Velar);
    places.push(ConsonantPlace::Uvular);
    places.push(ConsonantPlace::Pharyngeal);
    places.push(ConsonantPlace::Glottal);
    assert(places@ =~= chart_places());
    places
}

/// The heights in the order of the rows of the vowel chart.
pub fn height_rows() -> (heights: Vec<Height>)
    ensures
        heights@ == chart_heights(),
{
    let mut heights: Vec<Height> = Vec::new();
    heights.push(Height::Close);
    heights.push(Height::NearClose);
    heights.push(Height::CloseMid);
    heights.push(Height::Mid);
    heights.push(Height::OpenMid);
    heights.push(Height::NearOpen);
    heights.push(Height::Open);
    assert(heights@ =~= chart_heights());
    heights
}

/// The backnesses in the order of the columns of the vowel chart.
pub fn backness_columns() -> (backnesses: Vec<Backness>)
    ensures
        backnesses@ == chart_backnesses(),
{
    let mut backnesses: Vec<Backness> = Vec::new();
    backnesses.push(Backness::Front);
    backnesses.push(Backness::Central);
    backnesses.push(Backness::Back);
    assert(backnesses@ =~= chart_backnesses());
    backnesses
}

/// The cells of the consonant chart for the given phones.
pub fn consonants_table(phones: &Vec<Phone>) -> (cells: Vec<Vec<String>>)
    ensures
        cells.deep_view() == consonant_cells(phones@),
{
    let manners = manner_rows();
    let places = place_columns();
    let mut cells: Vec<Vec<String>> = Vec::new();
    let mut row: usize = 0;
    while row < manners.len()
        invariant
            row <= manners.len(),
            manners@ == chart_manners(),
            places@ == chart_places(),
            cells.len() == row,
            forall|r: int| 0 <= r < row ==> (#[trigger] cells[r]).deep_view() == consonant_cells(phones@)[r],
        decreases manners.len() - row,
    {
        let mut line: Vec<String> = Vec::new();
        let mut column: usize = 0;
        while column < places.len()
            invariant
                column <= places.len(),
                row < manners.len(),
                manners@ == chart_manners(),
                places@ == chart_places(),
                line.len() == column,
                forall|c: int|
                    0 <= c < column ==> (#[trigger] line[c])@ == consonant_cells(
                        phones@,
                    )[row as int][c],
            decreases places.len() - column,
        {
            line.push(consonant_cell(phones, manners[row], places[column]));
            column += 1;
        }
        assert(line.deep_view() =~= consonant_cells(phones@)[row as int]);
        cells.push(line);
        row += 1;
    }
    assert(cells.deep_view() =~= consonant_cells(phones@));
    cells
}

/// The cells of the vowel chart for the given phones.
pub fn vowels_table(phones: &Vec<Phone>) -> (cells: Vec<Vec<String>>)
    ensures
        cells.deep_view() == vowel_cells(phones@),
{
    let heights = height_rows();
    let backnesses = backness_columns();
    let mut cells: Vec<Vec<String>> = Vec::new();
    let mut row: usize = 0;
    while row < heights.len()
        invariant
            row <= heights.len(),
            heights@ == chart_heights(),
            backnesses@ == chart_backnesses(),
            cells.len() == row,
            forall|r: int| 0 <= r < row ==> (#[trigger] cells[r]).deep_view() == vowel_cells(phones@)[r],
        decreases heights.len() - row,
    {
        let mut line: Vec<String> = Vec::new();
        let mut column: usize = 0;
        while column < backnesses.len()
            invariant
                column <= backnesses.len(),
                row < heights.len(),
                heights@ == chart_heights(),
                backnesses@ == chart_backnesses(),
                line.len() == column,
                forall|c: int|
                    0 <= c < column ==> (#[trigger] line[c])@ == vowel_cells(phones@)[row as int][c],
            decreases backnesses.len() - column,
        {
            line.push(vowel_cell(phones, heights[row], backnesses[column]));
            column += 1;
        }
        assert(line.deep_view() =~= vowel_cells(phones@)[row as int]);
        cells.push(line);
        row += 1;
    }
    assert(cells.deep_view() =~= vowel_cells(phones@));
    cells
}

fn get_word(words: &Vec<String>, i: usize) -> (word: String)
    ensures
        word@ == word_at(words.deep_view(), i as int),
{
    if i < words.len() {
        assert(words.deep_view()[i as int] == words[i as int]@);
        words[i].clone()
    } else {
        String::new()
    }
}

/// The head of the table of changes.
pub fn create_titles(transformations: &Transformation) -> (titles: Vec<String>)
    ensures
        titles.deep_view() == change_titles(transformations.history@),
{
    let history = &transformations.history;
    let mut titles: Vec<String> = Vec::new();
    titles.push("Generated Word".to_owned());
    let mut rule: usize = 0;
    while rule < history.len()
        invariant
            rule <= history.len(),
            titles.len() == rule + 1,
            titles[0]@ == "Generated Word"@,
            forall|j: int| 1 <= j <= rule ==> (#[trigger] titles[j])@ == history[j - 1].rule@,
        decreases history.len() - rule,
    {
        titles.push(history[rule].rule.clone());
        rule += 1;
    }
    if history.len() > 0 {
        titles.push("Final word".to_owned());
        titles.push("IPA".to_owned());
    }
    proof {
        let wanted = change_titles(history@);
        assert(titles.len() == wanted.len());
        assert forall|j: int| 0 <= j < titles.len() implies titles.deep_view()[j] == wanted[j] by {
            assert(titles.deep_view()[j] == titles[j]@);
            if 1 <= j <= history.len() {
                assert(titles[j]@ == history[j - 1].rule@);
            }
        }
    }
    assert(titles.deep_view() =~= change_titles(history@));
    titles
}

/// The table of changes: a row for each word, that tells what each rule
/// made of it.
pub fn create_table(sound_system: &SoundSystem, words: &Vec<String>, transformations: &Transformation) -> (rows:
    Vec<Vec<String>>)
    ensures
        rows.len() == words.len(),
        forall|i: int|
            0 <= i < rows.len() ==> (#[trigger] rows[i]).deep_view() == change_row(
                sound_system@,
                words.deep_view(),
                transformations.history@,
                transformations.output.deep_view(),
                i,
            ),
{
    let history = &transformations.history;
    let output = &transformations.output;
    let ghost wv = words.deep_view();
    let mut rows: Vec<Vec<String>> = Vec::new();
    let mut i: usize = 0;
    while i < words.len()
        invariant
            i <= words.len(),
            wv == words.deep_view(),
            rows.len() == i,
            forall|k: int|
                0 <= k < i ==> (#[trigger] rows[k]).deep_view() == change_row(
                    sound_system@,
                    wv,
                    history@,
                    output.deep_view(),
                    k,
                ),
        decreases words.len() - i,
    {
        let mut row: Vec<String> = Vec::new();
        row.push(get_word(words, i));
        let mut rule: usize = 0;
        while rule < history.len()
            invariant
                rule <= history.len(),
                wv == words.deep_view(),
                row.len() == rule + 1,
                row[0]@ == word_at(wv, i as int),
                forall|j: int|
                    1 <= j <= rule ==> (#[trigger] row[j])@ == change_cell(
                        wv,
                        history@,
                        j - 1,
                        i as int,
                    ),
            decreases history.len() - rule,
        {
            let now = get_word(&history[rule].words, i);
            let before = if rule == 0 {
                get_word(words, i)
            } else {
                get_word(&history[rule - 1].words, i)
            };
            if now == before {
                row.push(String::new());
            } else {
                row.push(now);
            }
            rule += 1;
        }
        if output.len() > 0 {
            let last = get_word(output, i);
            let mut spelling = String::new();
            spelling.push('/');
            spelling.append(sound_system.ipa_representation(last.as_str()).as_str());
            spelling.push('/');
            assert(spelling@ =~= seq!['/'] + ipa_of(
                sound_system@,
                word_at(output.deep_view(), i as int),
            ) + seq!['/']);
            row.push(last);
            row.push(spelling);
        }
        proof {
            let wanted = change_row(sound_system@, wv, history@, output.deep_view(), i as int);
            assert(row.len() == wanted.len());
            assert forall|j: int| 0 <= j < row.len() implies row.deep_view()[j] == wanted[j] by {
                assert(row.deep_view()[j] == row[j]@);
                if 1 <= j <= history.len() {
                    assert(row[j]@ == change_cell(wv, history@, j - 1, i as int));
                }
            }
        }
        assert(row.deep_view() =~= change_row(
            sound_system@,
            wv,
            history@,
            output.deep_view(),
            i as int,
        ));
        rows.push(row);
        i += 1;
    }
    rows
}

} // verus!
