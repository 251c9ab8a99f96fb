use elden_builder::builder::build_requirements;
use elden_builder::index::{detail_url, item_links, walk_index};
use elden_builder::page::{weapon_from_page, weapon_from_parts, weapon_from_text, Site};
use elden_builder::record::{PageError, Requirements, Scalings, Weapon};
use elden_builder::table::{
    header, header_bytes, record_bytes, row_of, table_bytes, weapon_from_row, weapons_from_csv, weapons_from_rows, RowError,
};
use elden_builder::text::{decimal_text, join_parts, link_ready, normalize, parse_char, parse_u8, strip_blanks_of};
use elden_builder::tokens::{name_tokens, value_tokens};

fn strings(v: &[&str]) -> Vec<String> {
    v.iter().map(|s| s.to_string()).collect()
}

fn req(strength: u8, dexterity: u8, intelligence: u8, faith: u8, arcane: u8) -> Requirements {
    Requirements { strength, dexterity, intelligence, faith, arcane }
}

fn undetermined() -> Scalings {
    Scalings { strength: 'z', dexterity: 'z', intelligence: 'z', faith: 'z', arcane: 'z' }
}

fn detail_page(category: Option<&str>, requirements: &str) -> String {
    let category_row = match category {
        Some(c) => format!("<tr><td><a href=\"/c\">{}</a></td></tr>", c),
        None => "<tr><td>none</td></tr>".to_string(),
    };
    format!(
        "<html><body><div><table class=\"wiki_table\"><tbody>\
         <tr><td>a</td></tr><tr><td>b</td></tr><tr><td>c</td></tr>\
         <tr><td><span class=\"lineleft\">Str D\nDex E</span></td>\
         <td><span class=\"lineleft\">{}</span></td></tr>{}\
         </tbody></table></div></body></html>",
        requirements, category_row
    )
}

#[test]
fn tokens_of_example_text() {
    assert_eq!(name_tokens("str12dex8int0"), strings(&["str", "dex", "int"]));
    assert_eq!(value_tokens("str12dex8int0"), vec![12u8, 8, 0]);
    let r = build_requirements(&strings(&["str", "dex", "int"]), &vec![12, 8, 0]).unwrap();
    assert_eq!(r, req(12, 8, 0, 0, 0));
}

#[test]
fn example_text_gives_requirements() {
    let w = weapon_from_text("Club", &strings(&["Hammer"]), "str12dex8int0").unwrap();
    assert_eq!(w.requirements, req(12, 8, 0, 0, 0));
    assert_eq!(w.category, "Hammer");
    assert_eq!(w.name, "Club");
    assert_eq!(w.scalings, undetermined());
}

#[test]
fn missing_values_pair_with_zero() {
    let r = build_requirements(&strings(&["str", "dex", "fai", "arc"]), &vec![20, 9]).unwrap();
    assert_eq!(r, req(20, 9, 0, 0, 0));
}

#[test]
fn pairing_ignores_separators() {
    let w = weapon_from_text("X", &vec![], "str:10,,dex--14/int18").unwrap();
    assert_eq!(w.requirements, req(10, 14, 18, 0, 0));
}

#[test]
fn later_token_of_same_attribute_wins() {
    let r = build_requirements(&strings(&["str", "dex", "str"]), &vec![5, 6, 7]).unwrap();
    assert_eq!(r, req(7, 6, 0, 0, 0));
}

#[test]
fn longer_letter_runs_are_not_tokens() {
    assert_eq!(name_tokens("strength12fai9ab"), strings(&["fai"]));
}

#[test]
fn values_out_of_byte_range_are_dropped() {
    assert_eq!(value_tokens("str300dex7int0arc256fai255"), vec![7u8, 0, 255]);
}

#[test]
fn unknown_token_is_rejected() {
    let r = weapon_from_text("X", &vec![], "xyz12");
    assert_eq!(r, Err(PageError::UnknownStat("xyz".to_string())));
    let r = weapon_from_text("X", &vec![], "str10xyz12abc3");
    assert_eq!(r, Err(PageError::UnknownStat("xyz".to_string())));
}

#[test]
fn last_category_match_wins() {
    let w = weapon_from_text("Dagger", &strings(&["First", "Second"]), "").unwrap();
    assert_eq!(w.category, "Second");
    assert_eq!(w.requirements, req(0, 0, 0, 0, 0));
}

#[test]
fn no_category_gives_sentinel() {
    let w = weapon_from_text("Dagger", &vec![], "str8").unwrap();
    assert_eq!(w.category, "No type found");
}

#[test]
fn anomaly_category_is_overridden() {
    let w = weapon_from_text("Steel-Wire Torch", &strings(&["2.5"]), "str5").unwrap();
    assert_eq!(w.category, "Torch");
    let w = weapon_from_text("Steel-Wire Torch", &vec![], "").unwrap();
    assert_eq!(w.category, "Torch");
}

#[test]
fn requirements_block_is_normalised() {
    let blocks = vec![strings(&["Str D"]), strings(&["Str 12\n", "DEX 8 ", "Int"])];
    let w = weapon_from_parts("Axe", &strings(&["Axe"]), &blocks).unwrap();
    assert_eq!(w.requirements, req(12, 8, 0, 0, 0));
}

#[test]
fn one_block_is_missing_requirements() {
    let blocks = vec![strings(&["Str D"])];
    assert_eq!(weapon_from_parts("Axe", &vec![], &blocks), Err(PageError::MissingRequirements));
}

#[test]
fn detail_page_is_parsed() {
    let page = detail_page(Some("Greataxe"), "Str 20\nDex 10 Arc");
    let w = weapon_from_page(&page, "Axe", &Site::elden_ring_wiki()).unwrap();
    assert_eq!(w.category, "Greataxe");
    assert_eq!(w.name, "Axe");
    assert_eq!(w.requirements, req(20, 10, 0, 0, 0));
    assert_eq!(w.scalings, undetermined());
}

#[test]
fn detail_page_without_category() {
    let page = detail_page(None, "Int 9");
    let w = weapon_from_page(&page, "Staff", &Site::elden_ring_wiki()).unwrap();
    assert_eq!(w.category, "No type found");
    assert_eq!(w.requirements, req(0, 0, 9, 0, 0));
}

#[test]
fn detail_page_of_anomaly() {
    let page = detail_page(Some("2.5"), "Str 5");
    let w = weapon_from_page(&page, "Steel-Wire Torch", &Site::elden_ring_wiki()).unwrap();
    assert_eq!(w.category, "Torch");
}

#[test]
fn detail_page_without_blocks() {
    let page = "<html><body><p>nothing</p></body></html>";
    assert_eq!(
        weapon_from_page(page, "Axe", &Site::elden_ring_wiki()),
        Err(PageError::MissingRequirements)
    );
}

#[test]
fn bad_selector_is_reported() {
    let mut site = Site::elden_ring_wiki();
    site.category_selector = ">>>".to_string();
    assert_eq!(
        weapon_from_page("<p></p>", "Axe", &site),
        Err(PageError::BadSelector(">>>".to_string()))
    );
}

#[test]
fn detail_url_replaces_spaces() {
    let site = Site::elden_ring_wiki();
    assert_eq!(
        detail_url(&site.base_url, "Great Club"),
        "https://eldenring.wiki.fextralife.com/Great+Club"
    );
    assert_eq!(link_ready("a b  c"), "a+b++c");
}

#[test]
fn index_page_gives_links() {
    let page = "<html><body><table><tbody>\
                <tr><td><a href=\"/Great+Club\">Great Club</a></td><td>x</td></tr>\
                </tbody></table></body></html>";
    let site = Site::elden_ring_wiki();
    let links = walk_index(page, &site).unwrap();
    assert_eq!(links.len(), 1);
    assert_eq!(links[0].name, "Great Club");
    assert_eq!(links[0].url, format!("{}Great+Club", site.base_url));
}

#[test]
fn index_links_keep_order_and_duplicates() {
    let links = item_links("b/", &strings(&["A B", "C", "A B"]));
    let urls: Vec<&str> = links.iter().map(|l| l.url.as_str()).collect();
    assert_eq!(urls, vec!["b/A+B", "b/C", "b/A+B"]);
}

#[test]
fn example_row_reads_back() {
    let row = strings(&["Torch", "Steel-Wire Torch", "0", "0", "0", "0", "0", "z", "z", "z", "z", "z"]);
    let w = weapon_from_row(&row).unwrap();
    assert_eq!(w.category, "Torch");
    assert_eq!(w.name, "Steel-Wire Torch");
    assert_eq!(w.requirements, req(0, 0, 0, 0, 0));
    assert_eq!(w.scalings, undetermined());
}

#[test]
fn example_table_reads_back() {
    let bytes = b"Category,Name,Strength req,Dexterity req,Intelligence req,Faith req,Arcane req,\
Strength scl,Dexterity scl,Intelligence scl,Faith scl,Arcane scl\n\
Torch,Steel-Wire Torch,0,0,0,0,0,z,z,z,z,z\n";
    let read = weapons_from_csv(bytes);
    assert_eq!(read.weapons.len(), 1);
    assert_eq!(read.weapons[0].category, "Torch");
    assert!(read.rejected.is_empty());
}

#[test]
fn row_errors_name_the_column() {
    let mut row = strings(&["C", "N", "1", "2", "3", "4", "5", "a", "b", "c", "d", "e"]);
    assert!(weapon_from_row(&row).is_ok());
    row[4] = "256".to_string();
    assert_eq!(weapon_from_row(&row), Err(RowError::BadRequirement(4)));
    row[4] = "3".to_string();
    row[9] = "cc".to_string();
    assert_eq!(weapon_from_row(&row), Err(RowError::BadScaling(9)));
    row.pop();
    assert_eq!(weapon_from_row(&row), Err(RowError::WrongWidth(11)));
}

#[test]
fn bad_rows_are_skipped() {
    let good = strings(&["C", "N", "1", "2", "3", "4", "5", "a", "b", "c", "d", "e"]);
    let bad = strings(&["C", "N", "x", "2", "3", "4", "5", "a", "b", "c", "d", "e"]);
    let read = weapons_from_rows(&vec![Some(bad), None, Some(good)]);
    assert_eq!(read.weapons.len(), 1);
    assert_eq!(read.weapons[0].requirements, req(1, 2, 3, 4, 5));
    assert_eq!(read.rejected, vec![RowError::BadRequirement(2), RowError::Unreadable]);
}

#[test]
fn unreadable_row_is_skipped() {
    let mut bytes: Vec<u8> = b"a,b\n".to_vec();
    bytes.extend_from_slice(&[0xff, 0xfe, b',', b'x', b'\n']);
    let read = weapons_from_csv(&bytes);
    assert!(read.weapons.is_empty());
    assert_eq!(read.rejected, vec![RowError::Unreadable]);
}

fn sample() -> Vec<Weapon> {
    vec![
        Weapon {
            category: "Greatsword".to_string(),
            name: "Zweihander, \"big\"".to_string(),
            requirements: req(19, 11, 0, 0, 255),
            scalings: Scalings { strength: 'D', dexterity: 'D', intelligence: 'z', faith: ',', arcane: 'é' },
        },
        Weapon {
            category: "No type found".to_string(),
            name: "Great Club".to_string(),
            requirements: req(0, 0, 0, 0, 0),
            scalings: undetermined(),
        },
        Weapon {
            category: "Torch".to_string(),
            name: "Steel-Wire Torch".to_string(),
            requirements: req(7, 100, 9, 10, 99),
            scalings: undetermined(),
        },
    ]
}

#[test]
fn table_round_trip() {
    for n in 0..=3 {
        let ws: Vec<Weapon> = sample().into_iter().take(n).collect();
        let bytes = table_bytes(&ws).unwrap();
        let read = weapons_from_csv(&bytes);
        assert_eq!(read.weapons, ws);
        assert!(read.rejected.is_empty());
    }
}

#[test]
fn table_starts_with_header() {
    let bytes = table_bytes(&vec![]).unwrap();
    assert_eq!(
        String::from_utf8(bytes).unwrap(),
        "Category,Name,Strength req,Dexterity req,Intelligence req,Faith req,Arcane req,\
Strength scl,Dexterity scl,Intelligence scl,Faith scl,Arcane scl\n"
    );
    assert_eq!(header().len(), 12);
}

#[test]
fn row_fields_are_formatted() {
    let row = row_of(&sample()[2]);
    assert_eq!(row, strings(&["Torch", "Steel-Wire Torch", "7", "100", "9", "10", "99", "z", "z", "z", "z", "z"]));
}

#[test]
fn decimal_and_parse() {
    assert_eq!(decimal_text(0), "0");
    assert_eq!(decimal_text(42), "42");
    assert_eq!(decimal_text(255), "255");
    assert_eq!(parse_u8("255"), Some(255));
    assert_eq!(parse_u8("+7"), Some(7));
    assert_eq!(parse_u8("007"), Some(7));
    assert_eq!(parse_u8("256"), None);
    assert_eq!(parse_u8("99999"), None);
    assert_eq!(parse_u8(""), None);
    assert_eq!(parse_u8("+"), None);
    assert_eq!(parse_u8("-1"), None);
    assert_eq!(parse_u8("1a"), None);
    assert_eq!(parse_char("z"), Some('z'));
    assert_eq!(parse_char("é"), Some('é'));
    assert_eq!(parse_char(""), None);
    assert_eq!(parse_char("ab"), None);
}

#[test]
fn normalisation_steps() {
    assert_eq!(join_parts(&strings(&["ab", " c", "\nd"])), "ab c\nd");
    assert_eq!(strip_blanks_of(" a b\n c\t"), "abc\t");
    assert_eq!(normalize(&strings(&["Str 1", "\nDEX É"])), "str1dexé");
}

#[test]
fn index_names_are_anchor_text() {
    let page = "<table><tbody><tr><td><a>Sword &amp; <b>Board</b></a></td></tr></tbody></table>";
    let site = Site::elden_ring_wiki();
    let links = walk_index(page, &site).unwrap();
    assert_eq!(links.len(), 1);
    assert_eq!(links[0].name, "Sword & Board");
    assert_eq!(links[0].url, format!("{}Sword+&+Board", site.base_url));
}

#[test]
fn index_bad_selector_is_reported() {
    let mut site = Site::elden_ring_wiki();
    site.item_selector = "a[".to_string();
    assert!(matches!(walk_index("<p></p>", &site), Err(PageError::BadSelector(s)) if s == "a["));
}

#[test]
fn category_is_anchor_text() {
    let page = detail_page(Some("Great &amp; <i>Small</i>"), "Fai 7");
    let w = weapon_from_page(&page, "Bell", &Site::elden_ring_wiki()).unwrap();
    assert_eq!(w.category, "Great & Small");
    assert_eq!(w.requirements, req(0, 0, 0, 7, 0));
}

#[test]
fn rows_encode_one_by_one() {
    let ws = sample();
    let mut bytes = header_bytes().unwrap();
    for w in &ws {
        bytes.extend(record_bytes(w).unwrap());
    }
    assert_eq!(bytes, table_bytes(&ws).unwrap());
    assert_eq!(record_bytes(&ws[2]).unwrap(), b"Torch,Steel-Wire Torch,7,100,9,10,99,z,z,z,z,z\n".to_vec());
}
