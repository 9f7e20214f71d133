use xp_tlk::error::Failure;
use xp_tlk::table::{
    get_flags, get_lang, get_sound_length, get_sound_resref, get_text, Entry, Languages, TableRead,
    Tables, HAS_SOUND, HAS_SOUND_LENGTH, HAS_TEXT,
};

#[test]
fn flags_follow_the_fields_that_are_there() {
    assert_eq!(Entry::from_parts(None, None, None).flags, 0);
    assert_eq!(Entry::from_parts(Some(b"t".to_vec()), None, None).flags, 1);
    assert_eq!(Entry::from_parts(None, Some(b"snd".to_vec()), None).flags, 2);
    assert_eq!(Entry::from_parts(None, None, Some(1.5f32.to_bits())).flags, 4);
    let all = Entry::from_parts(Some(b"t".to_vec()), Some(b"snd".to_vec()), Some(2.0f32.to_bits()));
    assert_eq!(all.flags, 7);
    assert!(all.has(HAS_TEXT) && all.has(HAS_SOUND) && all.has(HAS_SOUND_LENGTH));
    assert_eq!(all.text, b"t".to_vec());
    assert_eq!(all.sound_resref, b"snd".to_vec());
    assert_eq!(f32::from_bits(all.sound_length_bits), 2.0);
    let none = Entry::from_parts(None, None, None);
    assert!(!none.has(HAS_TEXT) && !none.has(HAS_SOUND) && !none.has(HAS_SOUND_LENGTH));
    assert_eq!(none.text, Vec::<u8>::new());
    assert_eq!(none.sound_length_bits, 0);
}

#[test]
fn flags_of_an_entry_are_its_stored_flags() {
    let e = Entry { flags: 5, text: b"Hello".to_vec(), sound_resref: Vec::new(), sound_length_bits: 0 };
    assert_eq!(get_flags(Some(&e)), Ok(5));
    assert_eq!(get_flags(None), Ok(0));
    let top = Entry { flags: 0x7FFF_FFFF, text: Vec::new(), sound_resref: Vec::new(), sound_length_bits: 0 };
    assert_eq!(get_flags(Some(&top)), Ok(i32::MAX));
}

#[test]
fn flags_that_do_not_fit_are_out_of_range() {
    let e = Entry { flags: 0x8000_0000, text: Vec::new(), sound_resref: Vec::new(), sound_length_bits: 0 };
    assert_eq!(get_flags(Some(&e)), Err(Failure::OutOfRange));
    let f = Entry { flags: u32::MAX, text: Vec::new(), sound_resref: Vec::new(), sound_length_bits: 0 };
    assert_eq!(get_flags(Some(&f)), Err(Failure::OutOfRange));
}

#[test]
fn sound_length_counts_only_with_its_flag() {
    let bits = 3.25f32.to_bits();
    let with = Entry { flags: 4, text: Vec::new(), sound_resref: Vec::new(), sound_length_bits: bits };
    assert_eq!(f32::from_bits(get_sound_length(Some(&with))), 3.25);
    let without = Entry { flags: 3, text: Vec::new(), sound_resref: Vec::new(), sound_length_bits: bits };
    assert_eq!(f32::from_bits(get_sound_length(Some(&without))), 0.0);
    assert_eq!(get_sound_length(None), 0);
}

#[test]
fn sound_resref_counts_only_with_its_flag() {
    let with = Entry { flags: 2, text: Vec::new(), sound_resref: b"snd_custom".to_vec(), sound_length_bits: 0 };
    assert_eq!(get_sound_resref(Some(&with)), b"snd_custom".to_vec());
    let without = Entry { flags: 5, text: Vec::new(), sound_resref: b"snd_custom".to_vec(), sound_length_bits: 0 };
    assert_eq!(get_sound_resref(Some(&without)), Vec::<u8>::new());
    assert_eq!(get_sound_resref(None), Vec::<u8>::new());
}

#[test]
fn text_counts_only_with_its_flag() {
    let with = Entry { flags: 1, text: b"Hello".to_vec(), sound_resref: Vec::new(), sound_length_bits: 0 };
    assert_eq!(get_text(Some(&with)), b"Hello".to_vec());
    let without = Entry { flags: 6, text: b"Hello".to_vec(), sound_resref: Vec::new(), sound_length_bits: 0 };
    assert_eq!(get_text(Some(&without)), Vec::<u8>::new());
    assert_eq!(get_text(None), Vec::<u8>::new());
}

#[test]
fn language_is_read_from_the_table_that_the_index_names() {
    let all = Languages { base: 2, base_f: Some(3), user: Some(130) };
    assert_eq!(get_lang(&all, 0), Ok(2));
    assert_eq!(get_lang(&all, 1), Ok(3));
    assert_eq!(get_lang(&all, 2), Ok(130));
    assert_eq!(get_lang(&all, 3), Err(Failure::InvalidTableIndex));
    assert_eq!(get_lang(&all, -1), Err(Failure::InvalidTableIndex));
    let base_only = Languages { base: 0x8000_0000, base_f: None, user: None };
    assert_eq!(get_lang(&base_only, 0), Err(Failure::OutOfRange));
    assert_eq!(get_lang(&base_only, 1), Err(Failure::NoBaseFTable));
    assert_eq!(get_lang(&base_only, 2), Err(Failure::NoUserTable));
}

#[test]
fn tables_are_assembled_only_from_good_readings() {
    let t = Tables::assemble(Some(1u8), TableRead::NotGiven, TableRead::Read(3u8)).unwrap();
    assert_eq!((t.base, t.base_f, t.user), (1, None, Some(3)));
    let t = Tables::assemble(Some(1u8), TableRead::Read(2u8), TableRead::NotGiven).unwrap();
    assert_eq!((t.base, t.base_f, t.user), (1, Some(2), None));
    assert!(Tables::assemble(None, TableRead::Read(2u8), TableRead::Read(3u8)).is_none());
    assert!(Tables::assemble(Some(1u8), TableRead::Failed, TableRead::Read(3u8)).is_none());
    assert!(Tables::assemble(Some(1u8), TableRead::NotGiven, TableRead::Failed).is_none());
    assert!(Tables::<u8>::assemble(None, TableRead::NotGiven, TableRead::NotGiven).is_none());
}
