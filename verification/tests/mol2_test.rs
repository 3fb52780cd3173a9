use moleucle_3dview_rs::mol2::{
    bond_order, find, is_space, parse_number, scan, split_words, Mol2Record, Span, Stop,
};
use moleucle_3dview_rs::molecule::{AtomReading, Molecule};
use moleucle_3dview_rs::scalar::Scalar;
use moleucle_3dview_rs::vector::Vec3;

const BENZENE: &str = "@<TRIPOS>MOLECULE
benzene
 12 12 1 0 0
SMALL
NO_CHARGES

@<TRIPOS>ATOM
      1 C1          1.2131   -0.6884    0.0000 C.ar      1 BENZENE     0.0000
      2 C2          1.2028    0.7064    0.0001 C.ar      1 BENZENE     0.0000
      3 C3         -0.0103    1.3948    0.0000 C.ar      1 BENZENE     0.0000
      4 H1          2.1577   -1.2244    0.0000 H         1 BENZENE     0.0000
      5 broken      x.y       1.0       2.0    N.3
      6 short 1.0 2.0
@<TRIPOS>BOND
     1     1     2   ar
     2     2     3    2
     3     1     4    1
     4     3     9    1
     5     0     1    3
     6     +2    4    3
     7     a     b    1
@<TRIPOS>SUBSTRUCTURE
     1 BENZENE     1 PERM      0 ****  ****    0 ROOT
";

fn chars(text: &str) -> Vec<char> {
    text.chars().collect()
}

fn text_of(text: &[char], span: Span) -> String {
    text[span.start..span.end].iter().collect()
}

fn s(x: f32) -> Scalar {
    Scalar::from_bits(x.to_bits())
}

/// What a host reads of the atom records: the coordinates as numbers and the
/// element in upper case.
fn readings(text: &[char], records: &[Mol2Record]) -> Vec<Option<AtomReading>> {
    records
        .iter()
        .map(|record| match *record {
            Mol2Record::Atom { x, y, z, element } => {
                let x = text_of(text, x).parse::<f32>();
                let y = text_of(text, y).parse::<f32>();
                let z = text_of(text, z).parse::<f32>();
                match (x, y, z) {
                    (Ok(x), Ok(y), Ok(z)) => Some(AtomReading {
                        position: Vec3::new(s(x), s(y), s(z)),
                        element: text_of(text, element).to_uppercase(),
                    }),
                    _ => None,
                }
            }
            Mol2Record::Bond { .. } => None,
        })
        .collect()
}

fn read(text: &str) -> Molecule {
    let text = chars(text);
    let records = scan(&text);
    let readings = readings(&text, &records);
    Molecule::from_mol2(&records, &readings)
}

/// The same reading, written with the text functions of the standard
/// library: position, element and number of each atom, and each bond.
fn read_by_the_book(content: &str) -> (Vec<([f32; 3], String, usize)>, Vec<(usize, usize, u8)>) {
    let mut atoms = Vec::new();
    let mut bonds = Vec::new();
    let mut section = "";
    for line in content.lines() {
        let line = line.trim();
        if line.is_empty() {
            continue;
        }
        if line.starts_with("@<TRIPOS>") {
            section = line;
            continue;
        }
        let parts: Vec<&str> = line.split_whitespace().collect();
        match section {
            "@<TRIPOS>ATOM" => {
                if parts.len() >= 6 {
                    if let (Ok(x), Ok(y), Ok(z)) =
                        (parts[2].parse::<f32>(), parts[3].parse::<f32>(), parts[4].parse::<f32>())
                    {
                        let element = parts[5].split('.').next().unwrap_or("?").to_uppercase();
                        atoms.push(([x, y, z], element, atoms.len() + 1));
                    }
                }
            }
            "@<TRIPOS>BOND" => {
                if parts.len() >= 4 {
                    if let (Ok(a), Ok(b)) = (parts[1].parse::<usize>(), parts[2].parse::<usize>())
                    {
                        let order = match parts[3] {
                            "2" => 2,
                            "3" => 3,
                            _ => 1,
                        };
                        if a > 0 && b > 0 && a <= atoms.len() && b <= atoms.len() {
                            bonds.push((a - 1, b - 1, order));
                        }
                    }
                }
            }
            _ => {}
        }
    }
    (atoms, bonds)
}

fn assert_reads_like_the_book(content: &str) {
    let molecule = read(content);
    let (atoms, bonds) = read_by_the_book(content);
    assert_eq!(molecule.atoms.len(), atoms.len(), "atoms of {content:?}");
    for (got, (position, element, id)) in molecule.atoms.iter().zip(&atoms) {
        assert_eq!(got.position.x.to_bits(), position[0].to_bits());
        assert_eq!(got.position.y.to_bits(), position[1].to_bits());
        assert_eq!(got.position.z.to_bits(), position[2].to_bits());
        assert_eq!(&got.element, element);
        assert_eq!(got.id, *id);
    }
    let got: Vec<(usize, usize, u8)> =
        molecule.bonds.iter().map(|b| (b.atom_a, b.atom_b, b.order)).collect();
    assert_eq!(got, bonds, "bonds of {content:?}");
}

#[test]
fn white_space_is_what_the_standard_library_calls_white_space() {
    for code in 0..=0x10_ffffu32 {
        if let Some(c) = char::from_u32(code) {
            assert_eq!(is_space(c), c.is_whitespace(), "U+{code:04X}");
        }
    }
}

#[test]
fn a_search_stops_at_the_first_match() {
    let text = chars("ab cd.e\nfg");
    assert_eq!(find(&text, 0, text.len(), Stop::Space), 2);
    assert_eq!(find(&text, 0, text.len(), Stop::Ink), 0);
    assert_eq!(find(&text, 2, text.len(), Stop::Ink), 3);
    assert_eq!(find(&text, 0, text.len(), Stop::Dot), 5);
    assert_eq!(find(&text, 0, text.len(), Stop::LineFeed), 7);
    assert_eq!(find(&text, 8, text.len(), Stop::LineFeed), text.len());
    assert_eq!(find(&text, 0, 4, Stop::Dot), 4);
    assert_eq!(find(&text, 3, 3, Stop::Ink), 3);
    assert_eq!(find(&text, 3, text.len(), Stop::Space), 7);
}

#[test]
fn words_are_what_split_whitespace_yields() {
    let lines = [
        "",
        "   ",
        "one",
        "  one  ",
        "one two",
        "\tone\t\ttwo \r",
        "      1 C1          1.2131   -0.6884    0.0000 C.ar      1 BENZENE     0.0000",
        "a\u{a0}b\u{2003}c\u{3000}d",
        "caf\u{e9} \u{1f600}  x",
        "@<TRIPOS>ATOM",
    ];
    for line in lines {
        let text = chars(line);
        let words = split_words(&text, 0, text.len());
        let got: Vec<String> = words.iter().map(|w| text_of(&text, *w)).collect();
        let expected: Vec<String> = line.split_whitespace().map(str::to_string).collect();
        assert_eq!(got, expected, "words of {line:?}");
    }
}

#[test]
fn words_are_sought_between_the_given_bounds_only() {
    let text = chars("alpha beta gamma");
    let words = split_words(&text, 3, 13);
    let got: Vec<String> = words.iter().map(|w| text_of(&text, *w)).collect();
    assert_eq!(got, ["ha", "beta", "ga"]);
    assert_eq!(words[0], Span { start: 3, end: 5 });
    assert!(split_words(&text, 5, 5).is_empty());
}

#[test]
fn numbers_are_read_as_the_standard_library_reads_them() {
    let words = [
        "0",
        "7",
        "42",
        "007",
        "+5",
        "+0",
        "+",
        "",
        "-1",
        "-0",
        "++1",
        "1+",
        "12a",
        "a12",
        "1.5",
        "1 2",
        " 1",
        "٣",
        "4294967295",
        "4294967296",
        "18446744073709551615",
        "18446744073709551616",
        "18446744073709551620",
        "99999999999999999999999999",
        "000000000000000000000000000000012",
        "1844674407370955161x",
        "184467440737095516150x",
    ];
    for word in words {
        let text = chars(word);
        let got = parse_number(&text, Span { start: 0, end: text.len() });
        assert_eq!(got, word.parse::<usize>().ok(), "number of {word:?}");
    }
}

#[test]
fn a_number_is_read_from_its_span() {
    let text = chars("ab 123 cd");
    assert_eq!(parse_number(&text, Span { start: 3, end: 6 }), Some(123));
    assert_eq!(parse_number(&text, Span { start: 4, end: 6 }), Some(23));
    assert_eq!(parse_number(&text, Span { start: 3, end: 7 }), None);
    assert_eq!(parse_number(&text, Span { start: 3, end: 3 }), None);
}

#[test]
fn the_order_of_a_bond_is_two_three_or_one() {
    for (word, order) in
        [("2", 2), ("3", 3), ("1", 1), ("ar", 1), ("am", 1), ("22", 1), ("", 1), ("4", 1)]
    {
        let text = chars(word);
        assert_eq!(bond_order(&text, Span { start: 0, end: text.len() }), order, "{word:?}");
    }
}

#[test]
fn benzene_is_scanned_into_its_records() {
    let text = chars(BENZENE);
    let records = scan(&text);
    assert_eq!(records.len(), 5 + 6);
    let coordinates: Vec<[String; 4]> = records
        .iter()
        .filter_map(|record| match *record {
            Mol2Record::Atom { x, y, z, element } => Some([
                text_of(&text, x),
                text_of(&text, y),
                text_of(&text, z),
                text_of(&text, element),
            ]),
            Mol2Record::Bond { .. } => None,
        })
        .collect();
    let expected = [
        ["1.2131", "-0.6884", "0.0000", "C"],
        ["1.2028", "0.7064", "0.0001", "C"],
        ["-0.0103", "1.3948", "0.0000", "C"],
        ["2.1577", "-1.2244", "0.0000", "H"],
        ["x.y", "1.0", "2.0", "N"],
    ];
    assert_eq!(coordinates, expected);
    let bonds: Vec<Mol2Record> =
        records.iter().copied().filter(|r| matches!(r, Mol2Record::Bond { .. })).collect();
    assert_eq!(
        bonds,
        [
            Mol2Record::Bond { a_id: 1, b_id: 2, order: 1 },
            Mol2Record::Bond { a_id: 2, b_id: 3, order: 2 },
            Mol2Record::Bond { a_id: 1, b_id: 4, order: 1 },
            Mol2Record::Bond { a_id: 3, b_id: 9, order: 1 },
            Mol2Record::Bond { a_id: 0, b_id: 1, order: 3 },
            Mol2Record::Bond { a_id: 2, b_id: 4, order: 3 },
        ]
    );
    assert!(matches!(records[0], Mol2Record::Atom { .. }));
    assert!(matches!(records[5], Mol2Record::Bond { .. }));
}

#[test]
fn benzene_is_read_into_a_molecule() {
    let molecule = read(BENZENE);
    assert_eq!(molecule.atoms.len(), 4);
    assert_eq!(molecule.atoms[0].element, "C");
    assert_eq!(molecule.atoms[3].element, "H");
    assert_eq!(molecule.atoms[0].id, 1);
    assert_eq!(molecule.atoms[3].id, 4);
    assert_eq!(molecule.atoms[1].position, Vec3::new(s(1.2028), s(0.7064), s(0.0001)));
    let bonds: Vec<(usize, usize, u8)> =
        molecule.bonds.iter().map(|b| (b.atom_a, b.atom_b, b.order)).collect();
    assert_eq!(bonds, [(0, 1, 1), (1, 2, 2), (0, 3, 1), (1, 3, 3)]);
    assert_reads_like_the_book(BENZENE);
}

#[test]
fn texts_are_read_like_the_book() {
    let texts = [
        "",
        "\n",
        "\n\n\n",
        "no header at all\n1 2 3 4 5 6\n",
        "@<TRIPOS>ATOM",
        "@<TRIPOS>ATOM\n",
        "@<TRIPOS>ATOM\n1 C 0 0 0 C",
        "@<TRIPOS>ATOM\r\n1 C 0 0 0 C.3\r\n2 O 1 0 0 O.2\r\n@<TRIPOS>BOND\r\n1 1 2 2\r\n",
        "  @<TRIPOS>ATOM  \n 1 C 0.5 1e3 -2 c.ar x\n@<TRIPOS>BOND\n1 1 1 3",
        "@<TRIPOS>ATOM extra\n1 C 0 0 0 C\n",
        "@<TRIPOS>ATOMS\n1 C 0 0 0 C\n",
        "@<TRIPOS>atom\n1 C 0 0 0 C\n",
        "@<TRI POS>ATOM\n1 C 0 0 0 C\n",
        "@<TRIPOS>ATOM\n1 C 0 0 0 C\n@<TRIPOS>\n2 C 0 0 0 C\n",
        "@<TRIPOS>ATOM\n1 C 0 0 0 C\n@<TRIPOS>whatever\n@<TRIPOS>ATOM\n2 N 1 1 1 N.am\n",
        "@<TRIPOS>ATOM\n1 C 0 0 0 .C\n2 C 0 0 0 Cl.x.y\n3 C 0 0 0 \u{e9}t\u{df}.q\n",
        "@<TRIPOS>ATOM\n1 C nan inf -inf X\n2 C 1. .5 +3 Y\n3 C 1,0 2 3 Z\n4 C 0x10 2 3 W\n",
        "@<TRIPOS>BOND\n1 1 2 1\n@<TRIPOS>ATOM\n1 C 0 0 0 C\n2 C 0 0 0 C\n@<TRIPOS>BOND\n1 1 2 1\n1 2 1 ar\n1 2 3 2\n1 -1 2 2\n1 2 2\n",
        "@<TRIPOS>ATOM\n1 C 0 0 0 C\n@<TRIPOS>BOND\n1 1 1 2\n@<TRIPOS>ATOM\n2 C 0 0 0 C\n@<TRIPOS>BOND\n2 2 1 3\n2 +1 +2 2 x y z\n",
        "@<TRIPOS>ATOM\n1\u{a0}C\u{2003}0 0 0 C\n\u{3000}\n2 C 0 0 0 C\u{85}tail\n",
        "@<TRIPOS>ATOM\n1 C 0 0 0 C\rstill the same line 1 2 3\n@<TRIPOS>BOND\r1 1 1 1\n",
        "@<TRIPOS>BOND\n1 18446744073709551616 1 1\n1 1 99999999999999999999 1\n",
    ];
    for text in texts {
        assert_reads_like_the_book(text);
    }
}

#[test]
fn an_atom_without_a_reading_is_left_out() {
    let text = chars("@<TRIPOS>ATOM\n1 a 0 0 0 C\n2 b 1 1 1 O\n@<TRIPOS>BOND\n1 1 2 1\n");
    let records = scan(&text);
    assert_eq!(records.len(), 3);
    let mut given = readings(&text, &records);
    let all = Molecule::from_mol2(&records, &given);
    assert_eq!((all.atoms.len(), all.bonds.len()), (2, 1));
    given[1] = None;
    let one = Molecule::from_mol2(&records, &given);
    assert_eq!((one.atoms.len(), one.bonds.len()), (1, 0));
    assert_eq!(one.atoms[0].element, "C");
    let none = Molecule::from_mol2(&records, &vec![]);
    assert_eq!((none.atoms.len(), none.bonds.len()), (0, 0));
}
