//! The fixed twelve-column tabular layout of item records.

use vstd::prelude::*;
use crate::record::{Requirements, Scalings, Weapon, WeaponModel};
use crate::text::{char_text, decimal, decimal_text, lemma_decimal_reads_back, parse_char, parse_u8, push_char, u8_text};

verus! {

/// Why a row gave no record.
#[derive(Clone, Copy, Debug, PartialEq, Eq, Structural)]
pub enum RowError {
    /// The row does not have twelve fields; it has this many.
    WrongWidth(usize),
    /// The field at this column is not a requirement in `0..=255`.
    BadRequirement(usize),
    /// The field at this column is not exactly one character.
    BadScaling(usize),
    /// The tabular reader could not read the row.
    Unreadable,
}

/// The column titles.
pub open spec fn header_spec() -> Seq<Seq<char>> {
    seq![
        "Category"@, "Name"@,
        "Strength req"@, "Dexterity req"@, "Intelligence req"@, "Faith req"@, "Arcane req"@,
        "Strength scl"@, "Dexterity scl"@, "Intelligence scl"@, "Faith scl"@, "Arcane scl"@,
    ]
}

/// The fields of the row of a record.
pub open spec fn row_spec(w: WeaponModel) -> Seq<Seq<char>> {
    seq![
        w.category, w.name,
        decimal(w.requirements.strength as nat), decimal(w.requirements.dexterity as nat),
        decimal(w.requirements.intelligence as nat), decimal(w.requirements.faith as nat),
        decimal(w.requirements.arcane as nat),
        seq![w.scalings.strength], seq![w.scalings.dexterity], seq![w.scalings.intelligence],
        seq![w.scalings.faith], seq![w.scalings.arcane],
    ]
}

/// The record a row reads as, or the first field that does not read.
pub open spec fn row_result(f: Seq<Seq<char>>) -> Result<WeaponModel, RowError> {
    if f.len() != 12 {
        Err(RowError::WrongWidth(f.len() as usize))
    } else if u8_text(f[2]) is None {
        Err(RowError::BadRequirement(2))
    } else if u8_text(f[3]) is None {
        Err(RowError::BadRequirement(3))
    } else if u8_text(f[4]) is None {
        Err(RowError::BadRequirement(4))
    } else if u8_text(f[5]) is None {
        Err(RowError::BadRequirement(5))
    } else if u8_text(f[6]) is None {
        Err(RowError::BadRequirement(6))
    } else if char_text(f[7]) is None {
        Err(RowError::BadScaling(7))
    } else if char_text(f[8]) is None {
        Err(RowError::BadScaling(8))
    } else if char_text(f[9]) is None {
        Err(RowError::BadScaling(9))
    } else if char_text(f[10]) is None {
        Err(RowError::BadScaling(10))
    } else if char_text(f[11]) is None {
        Err(RowError::BadScaling(11))
    } else {
        Ok(WeaponModel {
            category: f[0],
            name: f[1],
            requirements: Requirements {
                strength: u8_text(f[2])->Some_0,
                dexterity: u8_text(f[3])->Some_0,
                intelligence: u8_text(f[4])->Some_0,
                faith: u8_text(f[5])->Some_0,
                arcane: u8_text(f[6])->Some_0,
            },
            scalings: Scalings {
                strength: char_text(f[7])->Some_0,
                dexterity: char_text(f[8])->Some_0,
                intelligence: char_text(f[9])->Some_0,
                faith: char_text(f[10])->Some_0,
                arcane: char_text(f[11])->Some_0,
            },
        })
    }
}

/// Whether `r` is the outcome of reading the row `f`.
pub open spec fn row_outcome(r: Result<Weapon, RowError>, f: Seq<Seq<char>>) -> bool {
    match r {
        Ok(w) => row_result(f) == Ok::<WeaponModel, RowError>(w@),
        Err(e) => row_result(f) == Err::<WeaponModel, RowError>(e),
    }
}

/// The record a row as the tabular reader hands it over reads as.
pub open spec fn record_result(row: Option<Seq<Seq<char>>>) -> Result<WeaponModel, RowError> {
    match row {
        Some(f) => row_result(f),
        None => Err(RowError::Unreadable),
    }
}

/// The records that the rows read as, in order, skipping the rows that do
/// not read.
pub open spec fn kept_records(rows: Seq<Option<Seq<Seq<char>>>>) -> Seq<WeaponModel>
    decreases rows.len(),
{
    if rows.len() == 0 {
        Seq::empty()
    } else {
        match record_result(rows.last()) {
            Ok(w) => kept_records(rows.drop_last()).push(w),
            Err(_) => kept_records(rows.drop_last()),
        }
    }
}

/// The errors of the rows that do not read, in order.
pub open spec fn row_errors(rows: Seq<Option<Seq<Seq<char>>>>) -> Seq<RowError>
    decreases rows.len(),
{
    if rows.len() == 0 {
        Seq::empty()
    } else {
        match record_result(rows.last()) {
            Ok(_) => row_errors(rows.drop_last()),
            Err(e) => row_errors(rows.drop_last()).push(e),
        }
    }
}

/// The models of a sequence of records.
pub open spec fn models(ws: Seq<Weapon>) -> Seq<WeaponModel> {
    ws.map_values(|w: Weapon| w@)
}

/// A field of one character.
fn one_char(c: char) -> (r: String)
    ensures
        r@ == seq![c],
{
    let mut r = String::new();
    push_char(&mut r, c);
    r
}

/// The column titles, in order.
pub fn header() -> (r: Vec<String>)
    ensures
        r.deep_view() == header_spec(),
{
    let r = vec![
        String::from_str("Category"), String::from_str("Name"),
        String::from_str("Strength req"), String::from_str("Dexterity req"),
        String::from_str("Intelligence req"), String::from_str("Faith req"),
        String::from_str("Arcane req"),
        String::from_str("Strength scl"), String::from_str("Dexterity scl"),
        String::from_str("Intelligence scl"), String::from_str("Faith scl"),
        String::from_str("Arcane scl"),
    ];
    assert(r.deep_view() =~= header_spec());
    r
}

/// The fields of the row of a record: category, name, the five
/// requirements in decimal, the five scaling grades.
pub fn row_of(w: &Weapon) -> (r: Vec<String>)
    ensures
        r.deep_view() == row_spec(w@),
{
    let r = vec![
        w.category.clone(), w.name.clone(),
        decimal_text(w.requirements.strength), decimal_text(w.requirements.dexterity),
        decimal_text(w.requirements.intelligence), decimal_text(w.requirements.faith),
        decimal_text(w.requirements.arcane),
        one_char(w.scalings.strength), one_char(w.scalings.dexterity),
        one_char(w.scalings.intelligence), one_char(w.scalings.faith),
        one_char(w.scalings.arcane),
    ];
    assert(r.deep_view() =~= row_spec(w@));
    r
}

/// Reads the requirement at column `i`.
fn requirement_at(fields: &Vec<String>, i: usize) -> (r: Result<u8, RowError>)
    requires
        i < fields.len(),
    ensures
        r matches Ok(v) ==> u8_text(fields[i as int]@) == Some(v),
        r matches Err(e) ==> u8_text(fields[i as int]@) is None && e == RowError::BadRequirement(i),
{
    match parse_u8(fields[i].as_str()) {
        Some(v) => Ok(v),
        None => Err(RowError::BadRequirement(i)),
    }
}

/// Reads the scaling grade at column `i`.
fn scaling_at(fields: &Vec<String>, i: usize) -> (r: Result<char, RowError>)
    requires
        i < fields.len(),
    ensures
        r matches Ok(c) ==> char_text(fields[i as int]@) == Some(c),
        r matches Err(e) ==> char_text(fields[i as int]@) is None && e == RowError::BadScaling(i),
{
    match parse_char(fields[i].as_str()) {
        Some(c) => Ok(c),
        None => Err(RowError::BadScaling(i)),
    }
}

/// The record a row of twelve fields reads as; the error names the first
/// field that does not read.
pub fn weapon_from_row(fields: &Vec<String>) -> (r: Result<Weapon, RowError>)
    ensures
        row_outcome(r, fields.deep_view()),
{
    let ghost f = fields.deep_view();
    if fields.len() != 12 {
        return Err(RowError::WrongWidth(fields.len()));
    }
    assert(forall|i: int| 0 <= i < 12 ==> f[i] == fields[i]@);
    let strength = match requirement_at(fields, 2) { Ok(v) => v, Err(e) => return Err(e) };
    let dexterity = match requirement_at(fields, 3) { Ok(v) => v, Err(e) => return Err(e) };
    let intelligence = match requirement_at(fields, 4) { Ok(v) => v, Err(e) => return Err(e) };
    let faith = match requirement_at(fields, 5) { Ok(v) => v, Err(e) => return Err(e) };
    let arcane = match requirement_at(fields, 6) { Ok(v) => v, Err(e) => return Err(e) };
    let s_strength = match scaling_at(fields, 7) { Ok(c) => c, Err(e) => return Err(e) };
    let s_dexterity = match scaling_at(fields, 8) { Ok(c) => c, Err(e) => return Err(e) };
    let s_intelligence = match scaling_at(fields, 9) { Ok(c) => c, Err(e) => return Err(e) };
    let s_faith = match scaling_at(fields, 10) { Ok(c) => c, Err(e) => return Err(e) };
    let s_arcane = match scaling_at(fields, 11) { Ok(c) => c, Err(e) => return Err(e) };
    Ok(Weapon {
        category: fields[0].clone(),
        name: fields[1].clone(),
        requirements: Requirements { strength, dexterity, intelligence, faith, arcane },
        scalings: Scalings {
            strength: s_strength,
            dexterity: s_dexterity,
            intelligence: s_intelligence,
            faith: s_faith,
            arcane: s_arcane,
        },
    })
}

/// The rows of a collection of records, in order.
pub fn rows_of(ws: &Vec<Weapon>) -> (r: Vec<Vec<String>>)
    ensures
        r.deep_view() == models(ws@).map_values(|w: WeaponModel| row_spec(w)),
{
    let mut r: Vec<Vec<String>> = Vec::new();
    let mut i: usize = 0;
    while i < ws.len()
        invariant
            i <= ws.len(),
            r@.len() == i,
            forall|j: int| 0 <= j < i ==> (#[trigger] r@[j]).deep_view() == row_spec(ws@[j]@),
        decreases ws.len() - i,
    {
        let row = row_of(&ws[i]);
        r.push(row);
        i = i + 1;
    }
    assert(r.deep_view() =~= models(ws@).map_values(|w: WeaponModel| row_spec(w)));
    r
}

/// What reading a table gives: the records of the rows that read, and the
/// errors of the rows that do not.
pub struct TableRead {
    pub weapons: Vec<Weapon>,
    pub rejected: Vec<RowError>,
}

/// Reads every row in order; a row that does not read is skipped and its
/// error kept, and reading goes on.
pub fn weapons_from_rows(rows: &Vec<Option<Vec<String>>>) -> (r: TableRead)
    ensures
        models(r.weapons@) == kept_records(rows.deep_view()),
        r.rejected@ == row_errors(rows.deep_view()),
{
    let mut weapons: Vec<Weapon> = Vec::new();
    let mut rejected: Vec<RowError> = Vec::new();
    let mut i: usize = 0;
    while i < rows.len()
        invariant
            i <= rows.len(),
            models(weapons@) =~= kept_records(rows.deep_view().subrange(0, i as int)),
            rejected@ =~= row_errors(rows.deep_view().subrange(0, i as int)),
        decreases rows.len() - i,
    {
        proof {
            assert(rows.deep_view().subrange(0, i + 1).drop_last() =~= rows.deep_view().subrange(0, i as int));
        }
        match &rows[i] {
            Some(fields) => match weapon_from_row(fields) {
                Ok(w) => weapons.push(w),
                Err(e) => rejected.push(e),
            },
            None => rejected.push(RowError::Unreadable),
        }
        i = i + 1;
    }
    assert(rows.deep_view().subrange(0, i as int) =~= rows.deep_view());
    TableRead { weapons, rejected }
}

/// What the `csv` crate writes for a sequence of rows.
pub uninterp spec fn csv_text_of(rows: Seq<Seq<Seq<char>>>) -> Seq<u8>;

/// What the `csv` crate reads from the bytes of a table: each row after
/// the header row, or `None` for a row it could not read.
pub uninterp spec fn csv_records_of(bytes: Seq<u8>) -> Seq<Option<Seq<Seq<char>>>>;

/// Relies on `csv::Writer::from_writer`, `Writer::write_record` and
/// `Writer::into_inner` over an in-memory buffer: the bytes depend on the
/// rows alone, and writing fails only on rows of unequal lengths, since a
/// `Vec<u8>` never fails to take bytes.
#[verifier::external_body]
fn write_csv(rows: &Vec<Vec<String>>) -> (r: Option<Vec<u8>>)
    ensures
        r matches Some(b) ==> b@ == csv_text_of(rows.deep_view()),
        (forall|i: int| 0 <= i < rows@.len() ==> (#[trigger] rows@[i])@.len() == rows@[0]@.len())
            ==> r is Some,
{
    let mut w = csv::Writer::from_writer(Vec::new());
    for row in rows {
        if w.write_record(row).is_err() {
            return None;
        }
    }
    w.into_inner().ok()
}

/// Relies on `csv::Reader::from_reader`, `Reader::records` and
/// `StringRecord::iter` over a byte slice: the first row is taken as the
/// header, and the rows depend on the bytes alone.
#[verifier::external_body]
fn read_csv(bytes: &[u8]) -> (r: Vec<Option<Vec<String>>>)
    ensures
        r.deep_view() == csv_records_of(bytes@),
{
    csv::Reader::from_reader(bytes)
        .records()
        .map(|rec| rec.ok().map(|fields| fields.iter().map(|f| f.to_string()).collect()))
        .collect()
}

/// The rows of a table: the header row, then the row of each record.
pub open spec fn table_rows(ws: Seq<WeaponModel>) -> Seq<Seq<Seq<char>>> {
    seq![header_spec()] + ws.map_values(|w: WeaponModel| row_spec(w))
}

/// The bytes of the table of a collection: a header row, then one row per
/// record, in order.
pub fn table_bytes(ws: &Vec<Weapon>) -> (r: Option<Vec<u8>>)
    ensures
        r is Some,
        r matches Some(b) ==> b@ == csv_text_of(table_rows(models(ws@))),
{
    let mut rows: Vec<Vec<String>> = vec![header()];
    assert(rows@[0].deep_view().len() == 12);
    assert(rows@[0]@.len() == rows@[0].deep_view().len());
    let mut i: usize = 0;
    while i < ws.len()
        invariant
            i <= ws.len(),
            rows@.len() == i + 1,
            rows@[0].deep_view() == header_spec(),
            forall|j: int| 0 <= j < i ==> (#[trigger] rows@[j + 1]).deep_view() == row_spec(ws@[j]@),
            forall|j: int| 0 <= j < rows@.len() ==> (#[trigger] rows@[j])@.len() == 12,
        decreases ws.len() - i,
    {
        let row = row_of(&ws[i]);
        assert(row@.len() == row.deep_view().len());
        rows.push(row);
        i = i + 1;
    }
    let ghost t = table_rows(models(ws@));
    assert(rows.deep_view() =~= t) by {
        assert(t.len() == rows@.len());
        assert forall|j: int| 0 <= j < t.len() implies rows.deep_view()[j] == t[j] by {
            if j > 0 {
                assert(rows@[(j - 1) + 1].deep_view() == row_spec(ws@[j - 1]@));
            }
        }
    }
    write_csv(&rows)
}

/// The bytes of the header row of a table.
pub fn header_bytes() -> (r: Option<Vec<u8>>)
    ensures
        r is Some,
        r matches Some(b) ==> b@ == csv_text_of(seq![header_spec()]),
{
    let rows: Vec<Vec<String>> = vec![header()];
    assert(rows.deep_view() =~= seq![header_spec()]);
    write_csv(&rows)
}

/// The bytes of the row of one record, as it stands in a table.
pub fn record_bytes(w: &Weapon) -> (r: Option<Vec<u8>>)
    ensures
        r is Some,
        r matches Some(b) ==> b@ == csv_text_of(seq![row_spec(w@)]),
{
    let rows: Vec<Vec<String>> = vec![row_of(w)];
    assert(rows.deep_view() =~= seq![row_spec(w@)]);
    write_csv(&rows)
}

/// Reads the records of the bytes of a table; a row that does not read is
/// skipped and its error kept.
pub fn weapons_from_csv(bytes: &[u8]) -> (r: TableRead)
    ensures
        models(r.weapons@) == kept_records(csv_records_of(bytes@)),
        r.rejected@ == row_errors(csv_records_of(bytes@)),
{
    let rows = read_csv(bytes);
    weapons_from_rows(&rows)
}

/// Reading back the row of a record gives the record.
pub proof fn lemma_row_round_trip(w: WeaponModel)
    ensures
        row_result(row_spec(w)) == Ok::<WeaponModel, RowError>(w),
{
    lemma_decimal_reads_back(w.requirements.strength);
    lemma_decimal_reads_back(w.requirements.dexterity);
    lemma_decimal_reads_back(w.requirements.intelligence);
    lemma_decimal_reads_back(w.requirements.faith);
    lemma_decimal_reads_back(w.requirements.arcane);
}

/// Writing any collection of records as rows and reading the rows back
/// gives the same records, in the same order, and rejects no row.
pub proof fn lemma_table_round_trip(ws: Seq<WeaponModel>)
    ensures
        kept_records(ws.map_values(|w: WeaponModel| Some(row_spec(w)))) == ws,
        row_errors(ws.map_values(|w: WeaponModel| Some(row_spec(w)))).len() == 0,
    decreases ws.len(),
{
    let rows = ws.map_values(|w: WeaponModel| Some(row_spec(w)));
    if ws.len() > 0 {
        lemma_table_round_trip(ws.drop_last());
        assert(rows.drop_last() =~= ws.drop_last().map_values(|w: WeaponModel| Some(row_spec(w))));
        lemma_row_round_trip(ws.last());
        assert(ws.drop_last().push(ws.last()) =~= ws);
    } else {
        assert(rows.len() == 0);
    }
}

} // verus!
