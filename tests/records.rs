use ids_parser::composition::{Composition, CompositionPart};
use ids_parser::destr_form::DestructionForm;
use ids_parser::ids::IDS;
use ids_parser::origin::Origin;
use ids_parser::utils::utf_code_to_char;
use ids_parser::xref::{RefType, XRef, XRefItem};

fn gaoh_composition() -> Composition {
    Composition {
        data: vec![
            CompositionPart::Destructive(DestructionForm::Horizontally3),
            CompositionPart::Radical('亠'),
            CompositionPart::Radical('口'),
            CompositionPart::Radical('冋'),
        ],
        reg_origins: vec![
            Origin::China,
            Origin::HongKong,
            Origin::Japan,
            Origin::SouthKorea,
            Origin::Taiwan,
            Origin::Vietnam,
        ],
    }
}

#[test]
fn lib_test_conv_utf_to_char() {
    let inp = &["U+9AD8"];
    let exp = &['高'];

    for (i, code) in inp.iter().enumerate() {
        assert_eq!(utf_code_to_char(code), Some(exp[i]));
    }
}

#[test]
fn main_test_conv_utf_to_char() {
    let inp = &["U+9AD8"];
    let exp = &['高'];

    for (i, code) in inp.iter().enumerate() {
        assert_eq!(utf_code_to_char(code), Some(exp[i]));
    }
}

#[test]
fn lib_test_dec_ids_full() {
    let input = "U+9AD8\t高\t^⿳亠口冋$(GHJKTV)\t*U+507D≡U+50DE";
    let parsed = IDS::from_str(input);

    assert!(parsed.is_ok());
    assert_eq!(
        parsed.unwrap(),
        IDS {
            literal: '高',
            xrefs: vec![XRef {
                ref_type: RefType::UnifiableVariants,
                left: XRefItem {
                    literal: '偽',
                    src_identifier: None,
                },
                right: XRefItem {
                    literal: '僞',
                    src_identifier: None,
                },
            }],
            compositions: vec![gaoh_composition()],
        }
    )
}

#[test]
fn main_test_dec_ids_full() {
    let input = "U+9AD8\t高\t^⿳亠口冋$(GHJKTV)";
    let parsed = IDS::from_str(input);

    assert!(parsed.is_ok());
    assert_eq!(
        parsed.unwrap(),
        IDS {
            literal: '高',
            compositions: vec![gaoh_composition()],
            xrefs: vec![],
        }
    )
}

#[test]
fn test_dec_ids_full_2_compositions() {
    let input = "U+4E12\t丒\t^⿱刃一$(GT)\t^⿱⿹𠃌㐅一$(J)";
    let parsed = IDS::from_str(input);
    assert!(parsed.is_ok());
}

#[test]
fn test_dec_ids_full_xref() {
    let input = "U+4E8C\t二\t^⿱一一$(GHJKTV)\t*U+4E8C≠U+2011E≠U+2011F≠U+20120";
    let parsed = IDS::from_str(input);
    assert!(parsed.is_ok());
}

#[test]
fn test_xref_item() {
    let input = "U+5098";
    let xref_item = XRefItem::from_str(input);
    assert!(xref_item.is_ok());
    assert_eq!(
        xref_item.unwrap(),
        XRefItem {
            literal: '傘',
            src_identifier: None,
        }
    );
}

#[test]
fn test_xref_item_origin() {
    let input = "U+5098(V)";
    let xref_item = XRefItem::from_str(input);
    assert!(xref_item.is_ok());
    assert_eq!(
        xref_item.unwrap(),
        XRefItem {
            literal: '傘',
            src_identifier: Some(Origin::Vietnam)
        }
    );
}

#[test]
fn test_special_unencoded2() {
    let input = "U+8C61\t象\t^⿱{02}𧰨$(GHJKTV)";
    let parsed = IDS::from_str(input).unwrap();
    let e = parsed.comp_by_lang(Origin::Japan).unwrap().get_radicals();
    assert!(e.contains(&'𧰨'));
    assert!(e.contains(&'\u{F2A6}'));
}

#[test]
fn test_special_unencoded() {
    let input = "U+9E7F\t鹿\t^⿸{55}比$(GHJKTV)";
    let parsed = IDS::from_str(input);
    assert!(parsed.is_ok());
    let parsed = parsed.unwrap();
    let e = parsed.comp_by_lang(Origin::Japan).unwrap().get_radicals();
    assert!(e.contains(&'\u{F2D0}'));
}

#[test]
fn lib_test_dec_composition1() {
    let input = "^⿳亠口冋$(GHJKTV)";
    let parsed = Composition::from_str(&input);

    assert!(parsed.is_ok());
    let parsed = parsed.unwrap();
    assert_eq!(
        parsed.reg_origins,
        vec![
            Origin::China,
            Origin::HongKong,
            Origin::Japan,
            Origin::SouthKorea,
            Origin::Taiwan,
            Origin::Vietnam,
        ]
    );

    assert_eq!(
        parsed.data,
        vec![
            CompositionPart::Destructive(DestructionForm::Horizontally3),
            CompositionPart::Radical('亠'),
            CompositionPart::Radical('口'),
            CompositionPart::Radical('冋'),
        ]
    );
}

#[test]
fn main_test_dec_composition1() {
    let input = "^⿳亠口冋$(GHJKTV)";
    let parsed = Composition::from_str(&input);

    assert!(parsed.is_ok());
    let parsed = parsed.unwrap();
    assert_eq!(
        parsed.reg_origins,
        vec![
            Origin::China,
            Origin::HongKong,
            Origin::Japan,
            Origin::SouthKorea,
            Origin::Taiwan,
            Origin::Vietnam,
        ]
    );

    assert_eq!(
        parsed.data,
        vec![
            CompositionPart::Destructive(DestructionForm::Horizontally3),
            CompositionPart::Radical('亠'),
            CompositionPart::Radical('口'),
            CompositionPart::Radical('冋'),
        ]
    );
}
