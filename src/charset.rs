//! The letters the engine knows: every plain and precomposed Vietnamese
//! vowel by family, tone and case, and the marks that turn one letter into another.
use vstd::prelude::*;

verus! {

/// Vowel families. Each family owns six precomposed forms, one per tone slot.
pub const FAMILY_A: u8 = 1;
pub const FAMILY_A_CIRCUMFLEX: u8 = 2;
pub const FAMILY_A_BREVE: u8 = 3;
pub const FAMILY_E: u8 = 4;
pub const FAMILY_E_CIRCUMFLEX: u8 = 5;
pub const FAMILY_I: u8 = 6;
pub const FAMILY_O: u8 = 7;
pub const FAMILY_O_CIRCUMFLEX: u8 = 8;
pub const FAMILY_O_HORN: u8 = 9;
pub const FAMILY_U: u8 = 10;
pub const FAMILY_U_HORN: u8 = 11;
pub const FAMILY_Y: u8 = 12;

/// Tone slots: 0 is the unmarked form, then acute, grave, hook, tilde and dot below.
pub const TONE_NONE: u8 = 0;
pub const TONE_DOT: u8 = 5;

/// What the engine knows of one character: its vowel family (0 when it is
/// not a vowel), the tone it already carries, and whether it is upper case.
#[derive(Clone, Copy, Debug)]
pub struct CharAttr {
    pub family: u8,
    pub tone: u8,
    pub upper: bool,
}

/// The attribute table: every plain and precomposed Vietnamese vowel, in both cases.
pub open spec fn attr_of(c: char) -> CharAttr {
    match c {
        'a' => CharAttr { family: 1, tone: 0, upper: false },
        'A' => CharAttr { family: 1, tone: 0, upper: true },
        'á' => CharAttr { family: 1, tone: 1, upper: false },
        'Á' => CharAttr { family: 1, tone: 1, upper: true },
        'à' => CharAttr { family: 1, tone: 2, upper: false },
        'À' => CharAttr { family: 1, tone: 2, upper: true },
        'ả' => CharAttr { family: 1, tone: 3, upper: false },
        'Ả' => CharAttr { family: 1, tone: 3, upper: true },
        'ã' => CharAttr { family: 1, tone: 4, upper: false },
        'Ã' => CharAttr { family: 1, tone: 4, upper: true },
        'ạ' => CharAttr { family: 1, tone: 5, upper: false },
        'Ạ' => CharAttr { family: 1, tone: 5, upper: true },
        'â' => CharAttr { family: 2, tone: 0, upper: false },
        'Â' => CharAttr { family: 2, tone: 0, upper: true },
        'ấ' => CharAttr { family: 2, tone: 1, upper: false },
        'Ấ' => CharAttr { family: 2, tone: 1, upper: true },
        'ầ' => CharAttr { family: 2, tone: 2, upper: false },
        'Ầ' => CharAttr { family: 2, tone: 2, upper: true },
        'ẩ' => CharAttr { family: 2, tone: 3, upper: false },
        'Ẩ' => CharAttr { family: 2, tone: 3, upper: true },
        'ẫ' => CharAttr { family: 2, tone: 4, upper: false },
        'Ẫ' => CharAttr { family: 2, tone: 4, upper: true },
        'ậ' => CharAttr { family: 2, tone: 5, upper: false },
        'Ậ' => CharAttr { family: 2, tone: 5, upper: true },
        'ă' => CharAttr { family: 3, tone: 0, upper: false },
        'Ă' => CharAttr { family: 3, tone: 0, upper: true },
        'ắ' => CharAttr { family: 3, tone: 1, upper: false },
        'Ắ' => CharAttr { family: 3, tone: 1, upper: true },
        'ằ' => CharAttr { family: 3, tone: 2, upper: false },
        'Ằ' => CharAttr { family: 3, tone: 2, upper: true },
        'ẳ' => CharAttr { family: 3, tone: 3, upper: false },
        'Ẳ' => CharAttr { family: 3, tone: 3, upper: true },
        'ẵ' => CharAttr { family: 3, tone: 4, upper: false },
        'Ẵ' => CharAttr { family: 3, tone: 4, upper: true },
        'ặ' => CharAttr { family: 3, tone: 5, upper: false },
        'Ặ' => CharAttr { family: 3, tone: 5, upper: true },
        'e' => CharAttr { family: 4, tone: 0, upper: false },
        'E' => CharAttr { family: 4, tone: 0, upper: true },
        'é' => CharAttr { family: 4, tone: 1, upper: false },
        'É' => CharAttr { family: 4, tone: 1, upper: true },
        'è' => CharAttr { family: 4, tone: 2, upper: false },
        'È' => CharAttr { family: 4, tone: 2, upper: true },
        'ẻ' => CharAttr { family: 4, tone: 3, upper: false },
        'Ẻ' => CharAttr { family: 4, tone: 3, upper: true },
        'ẽ' => CharAttr { family: 4, tone: 4, upper: false },
        'Ẽ' => CharAttr { family: 4, tone: 4, upper: true },
        'ẹ' => CharAttr { family: 4, tone: 5, upper: false },
        'Ẹ' => CharAttr { family: 4, tone: 5, upper: true },
        'ê' => CharAttr { family: 5, tone: 0, upper: false },
        'Ê' => CharAttr { family: 5, tone: 0, upper: true },
        'ế' => CharAttr { family: 5, tone: 1, upper: false },
        'Ế' => CharAttr { family: 5, tone: 1, upper: true },
        'ề' => CharAttr { family: 5, tone: 2, upper: false },
        'Ề' => CharAttr { family: 5, tone: 2, upper: true },
        'ể' => CharAttr { family: 5, tone: 3, upper: false },
        'Ể' => CharAttr { family: 5, tone: 3, upper: true },
        'ễ' => CharAttr { family: 5, tone: 4, upper: false },
        'Ễ' => CharAttr { family: 5, tone: 4, upper: true },
        'ệ' => CharAttr { family: 5, tone: 5, upper: false },
        'Ệ' => CharAttr { family: 5, tone: 5, upper: true },
        'i' => CharAttr { family: 6, tone: 0, upper: false },
        'I' => CharAttr { family: 6, tone: 0, upper: true },
        'í' => CharAttr { family: 6, tone: 1, upper: false },
        'Í' => CharAttr { family: 6, tone: 1, upper: true },
        'ì' => CharAttr { family: 6, tone: 2, upper: false },
        'Ì' => CharAttr { family: 6, tone: 2, upper: true },
        'ỉ' => CharAttr { family: 6, tone: 3, upper: false },
        'Ỉ' => CharAttr { family: 6, tone: 3, upper: true },
        'ĩ' => CharAttr { family: 6, tone: 4, upper: false },
        'Ĩ' => CharAttr { family: 6, tone: 4, upper: true },
        'ị' => CharAttr { family: 6, tone: 5, upper: false },
        'Ị' => CharAttr { family: 6, tone: 5, upper: true },
        'o' => CharAttr { family: 7, tone: 0, upper: false },
        'O' => CharAttr { family: 7, tone: 0, upper: true },
        'ó' => CharAttr { family: 7, tone: 1, upper: false },
        'Ó' => CharAttr { family: 7, tone: 1, upper: true },
        'ò' => CharAttr { family: 7, tone: 2, upper: false },
        'Ò' => CharAttr { family: 7, tone: 2, upper: true },
        'ỏ' => CharAttr { family: 7, tone: 3, upper: false },
        'Ỏ' => CharAttr { family: 7, tone: 3, upper: true },
        'õ' => CharAttr { family: 7, tone: 4, upper: false },
        'Õ' => CharAttr { family: 7, tone: 4, upper: true },
        'ọ' => CharAttr { family: 7, tone: 5, upper: false },
        'Ọ' => CharAttr { family: 7, tone: 5, upper: true },
        'ô' => CharAttr { family: 8, tone: 0, upper: false },
        'Ô' => CharAttr { family: 8, tone: 0, upper: true },
        'ố' => CharAttr { family: 8, tone: 1, upper: false },
        'Ố' => CharAttr { family: 8, tone: 1, upper: true },
        'ồ' => CharAttr { family: 8, tone: 2, upper: false },
        'Ồ' => CharAttr { family: 8, tone: 2, upper: true },
        'ổ' => CharAttr { family: 8, tone: 3, upper: false },
        'Ổ' => CharAttr { family: 8, tone: 3, upper: true },
        'ỗ' => CharAttr { family: 8, tone: 4, upper: false },
        'Ỗ' => CharAttr { family: 8, tone: 4, upper: true },
        'ộ' => CharAttr { family: 8, tone: 5, upper: false },
        'Ộ' => CharAttr { family: 8, tone: 5, upper: true },
        'ơ' => CharAttr { family: 9, tone: 0, upper: false },
        'Ơ' => CharAttr { family: 9, tone: 0, upper: true },
        'ớ' => CharAttr { family: 9, tone: 1, upper: false },
        'Ớ' => CharAttr { family: 9, tone: 1, upper: true },
        'ờ' => CharAttr { family: 9, tone: 2, upper: false },
        'Ờ' => CharAttr { family: 9, tone: 2, upper: true },
        'ở' => CharAttr { family: 9, tone: 3, upper: false },
        'Ở' => CharAttr { family: 9, tone: 3, upper: true },
        'ỡ' => CharAttr { family: 9, tone: 4, upper: false },
        'Ỡ' => CharAttr { family: 9, tone: 4, upper: true },
        'ợ' => CharAttr { family: 9, tone: 5, upper: false },
        'Ợ' => CharAttr { family: 9, tone: 5, upper: true },
        'u' => CharAttr { family: 10, tone: 0, upper: false },
        'U' => CharAttr { family: 10, tone: 0, upper: true },
        'ú' => CharAttr { family: 10, tone: 1, upper: false },
        'Ú' => CharAttr { family: 10, tone: 1, upper: true },
        'ù' => CharAttr { family: 10, tone: 2, upper: false },
        'Ù' => CharAttr { family: 10, tone: 2, upper: true },
        'ủ' => CharAttr { family: 10, tone: 3, upper: false },
        'Ủ' => CharAttr { family: 10, tone: 3, upper: true },
        'ũ' => CharAttr { family: 10, tone: 4, upper: false },
        'Ũ' => CharAttr { family: 10, tone: 4, upper: true },
        'ụ' => CharAttr { family: 10, tone: 5, upper: false },
        'Ụ' => CharAttr { family: 10, tone: 5, upper: true },
        'ư' => CharAttr { family: 11, tone: 0, upper: false },
        'Ư' => CharAttr { family: 11, tone: 0, upper: true },
        'ứ' => CharAttr { family: 11, tone: 1, upper: false },
        'Ứ' => CharAttr { family: 11, tone: 1, upper: true },
        'ừ' => CharAttr { family: 11, tone: 2, upper: false },
        'Ừ' => CharAttr { family: 11, tone: 2, upper: true },
        'ử' => CharAttr { family: 11, tone: 3, upper: false },
        'Ử' => CharAttr { family: 11, tone: 3, upper: true },
        'ữ' => CharAttr { family: 11, tone: 4, upper: false },
        'Ữ' => CharAttr { family: 11, tone: 4, upper: true },
        'ự' => CharAttr { family: 11, tone: 5, upper: false },
        'Ự' => CharAttr { family: 11, tone: 5, upper: true },
        'y' => CharAttr { family: 12, tone: 0, upper: false },
        'Y' => CharAttr { family: 12, tone: 0, upper: true },
        'ý' => CharAttr { family: 12, tone: 1, upper: false },
        'Ý' => CharAttr { family: 12, tone: 1, upper: true },
        'ỳ' => CharAttr { family: 12, tone: 2, upper: false },
        'Ỳ' => CharAttr { family: 12, tone: 2, upper: true },
        'ỷ' => CharAttr { family: 12, tone: 3, upper: false },
        'Ỷ' => CharAttr { family: 12, tone: 3, upper: true },
        'ỹ' => CharAttr { family: 12, tone: 4, upper: false },
        'Ỹ' => CharAttr { family: 12, tone: 4, upper: true },
        'ỵ' => CharAttr { family: 12, tone: 5, upper: false },
        'Ỵ' => CharAttr { family: 12, tone: 5, upper: true },
        _ => CharAttr { family: 0, tone: 0, upper: false },
    }
}

/// The precomposed vowel of a family, tone slot and case.
pub open spec fn form_of(family: u8, tone: u8, upper: bool) -> char {
    match (family, tone) {
        (1, 0) => if upper { 'A' } else { 'a' },
        (1, 1) => if upper { 'Á' } else { 'á' },
        (1, 2) => if upper { 'À' } else { 'à' },
        (1, 3) => if upper { 'Ả' } else { 'ả' },
        (1, 4) => if upper { 'Ã' } else { 'ã' },
        (1, 5) => if upper { 'Ạ' } else { 'ạ' },
        (2, 0) => if upper { 'Â' } else { 'â' },
        (2, 1) => if upper { 'Ấ' } else { 'ấ' },
        (2, 2) => if upper { 'Ầ' } else { 'ầ' },
        (2, 3) => if upper { 'Ẩ' } else { 'ẩ' },
        (2, 4) => if upper { 'Ẫ' } else { 'ẫ' },
        (2, 5) => if upper { 'Ậ' } else { 'ậ' },
        (3, 0) => if upper { 'Ă' } else { 'ă' },
        (3, 1) => if upper { 'Ắ' } else { 'ắ' },
        (3, 2) => if upper { 'Ằ' } else { 'ằ' },
        (3, 3) => if upper { 'Ẳ' } else { 'ẳ' },
        (3, 4) => if upper { 'Ẵ' } else { 'ẵ' },
        (3, 5) => if upper { 'Ặ' } else { 'ặ' },
        (4, 0) => if upper { 'E' } else { 'e' },
        (4, 1) => if upper { 'É' } else { 'é' },
        (4, 2) => if upper { 'È' } else { 'è' },
        (4, 3) => if upper { 'Ẻ' } else { 'ẻ' },
        (4, 4) => if upper { 'Ẽ' } else { 'ẽ' },
        (4, 5) => if upper { 'Ẹ' } else { 'ẹ' },
        (5, 0) => if upper { 'Ê' } else { 'ê' },
        (5, 1) => if upper { 'Ế' } else { 'ế' },
        (5, 2) => if upper { 'Ề' } else { 'ề' },
        (5, 3) => if upper { 'Ể' } else { 'ể' },
        (5, 4) => if upper { 'Ễ' } else { 'ễ' },
        (5, 5) => if upper { 'Ệ' } else { 'ệ' },
        (6, 0) => if upper { 'I' } else { 'i' },
        (6, 1) => if upper { 'Í' } else { 'í' },
        (6, 2) => if upper { 'Ì' } else { 'ì' },
        (6, 3) => if upper { 'Ỉ' } else { 'ỉ' },
        (6, 4) => if upper { 'Ĩ' } else { 'ĩ' },
        (6, 5) => if upper { 'Ị' } else { 'ị' },
        (7, 0) => if upper { 'O' } else { 'o' },
        (7, 1) => if upper { 'Ó' } else { 'ó' },
        (7, 2) => if upper { 'Ò' } else { 'ò' },
        (7, 3) => if upper { 'Ỏ' } else { 'ỏ' },
        (7, 4) => if upper { 'Õ' } else { 'õ' },
        (7, 5) => if upper { 'Ọ' } else { 'ọ' },
        (8, 0) => if upper { 'Ô' } else { 'ô' },
        (8, 1) => if upper { 'Ố' } else { 'ố' },
        (8, 2) => if upper { 'Ồ' } else { 'ồ' },
        (8, 3) => if upper { 'Ổ' } else { 'ổ' },
        (8, 4) => if upper { 'Ỗ' } else { 'ỗ' },
        (8, 5) => if upper { 'Ộ' } else { 'ộ' },
        (9, 0) => if upper { 'Ơ' } else { 'ơ' },
        (9, 1) => if upper { 'Ớ' } else { 'ớ' },
        (9, 2) => if upper { 'Ờ' } else { 'ờ' },
        (9, 3) => if upper { 'Ở' } else { 'ở' },
        (9, 4) => if upper { 'Ỡ' } else { 'ỡ' },
        (9, 5) => if upper { 'Ợ' } else { 'ợ' },
        (10, 0) => if upper { 'U' } else { 'u' },
        (10, 1) => if upper { 'Ú' } else { 'ú' },
        (10, 2) => if upper { 'Ù' } else { 'ù' },
        (10, 3) => if upper { 'Ủ' } else { 'ủ' },
        (10, 4) => if upper { 'Ũ' } else { 'ũ' },
        (10, 5) => if upper { 'Ụ' } else { 'ụ' },
        (11, 0) => if upper { 'Ư' } else { 'ư' },
        (11, 1) => if upper { 'Ứ' } else { 'ứ' },
        (11, 2) => if upper { 'Ừ' } else { 'ừ' },
        (11, 3) => if upper { 'Ử' } else { 'ử' },
        (11, 4) => if upper { 'Ữ' } else { 'ữ' },
        (11, 5) => if upper { 'Ự' } else { 'ự' },
        (12, 0) => if upper { 'Y' } else { 'y' },
        (12, 1) => if upper { 'Ý' } else { 'ý' },
        (12, 2) => if upper { 'Ỳ' } else { 'ỳ' },
        (12, 3) => if upper { 'Ỷ' } else { 'ỷ' },
        (12, 4) => if upper { 'Ỹ' } else { 'ỹ' },
        (12, 5) => if upper { 'Ỵ' } else { 'ỵ' },
        _ => '\0',
    }
}

pub open spec fn is_vowel(c: char) -> bool {
    attr_of(c).family > 0
}

/// Looks a character up in the attribute table.
pub fn char_attr(c: char) -> (r: CharAttr)
    ensures
        r == attr_of(c),
{
        match c {
            'a' => CharAttr { family: 1, tone: 0, upper: false },
            'A' => CharAttr { family: 1, tone: 0, upper: true },
            'á' => CharAttr { family: 1, tone: 1, upper: false },
            'Á' => CharAttr { family: 1, tone: 1, upper: true },
            'à' => CharAttr { family: 1, tone: 2, upper: false },
            'À' => CharAttr { family: 1, tone: 2, upper: true },
            'ả' => CharAttr { family: 1, tone: 3, upper: false },
            'Ả' => CharAttr { family: 1, tone: 3, upper: true },
            'ã' => CharAttr { family: 1, tone: 4, upper: false },
            'Ã' => CharAttr { family: 1, tone: 4, upper: true },
            'ạ' => CharAttr { family: 1, tone: 5, upper: false },
            'Ạ' => CharAttr { family: 1, tone: 5, upper: true },
            'â' => CharAttr { family: 2, tone: 0, upper: false },
            'Â' => CharAttr { family: 2, tone: 0, upper: true },
            'ấ' => CharAttr { family: 2, tone: 1, upper: false },
            'Ấ' => CharAttr { family: 2, tone: 1, upper: true },
            'ầ' => CharAttr { family: 2, tone: 2, upper: false },
            'Ầ' => CharAttr { family: 2, tone: 2, upper: true },
            'ẩ' => CharAttr { family: 2, tone: 3, upper: false },
            'Ẩ' => CharAttr { family: 2, tone: 3, upper: true },
            'ẫ' => CharAttr { family: 2, tone: 4, upper: false },
            'Ẫ' => CharAttr { family: 2, tone: 4, upper: true },
            'ậ' => CharAttr { family: 2, tone: 5, upper: false },
            'Ậ' => CharAttr { family: 2, tone: 5, upper: true },
            'ă' => CharAttr { family: 3, tone: 0, upper: false },
            'Ă' => CharAttr { family: 3, tone: 0, upper: true },
            'ắ' => CharAttr { family: 3, tone: 1, upper: false },
            'Ắ' => CharAttr { family: 3, tone: 1, upper: true },
            'ằ' => CharAttr { family: 3, tone: 2, upper: false },
            'Ằ' => CharAttr { family: 3, tone: 2, upper: true },
            'ẳ' => CharAttr { family: 3, tone: 3, upper: false },
            'Ẳ' => CharAttr { family: 3, tone: 3, upper: true },
            'ẵ' => CharAttr { family: 3, tone: 4, upper: false },
            'Ẵ' => CharAttr { family: 3, tone: 4, upper: true },
            'ặ' => CharAttr { family: 3, tone: 5, upper: false },
            'Ặ' => CharAttr { family: 3, tone: 5, upper: true },
            'e' => CharAttr { family: 4, tone: 0, upper: false },
            'E' => CharAttr { family: 4, tone: 0, upper: true },
            'é' => CharAttr { family: 4, tone: 1, upper: false },
            'É' => CharAttr { family: 4, tone: 1, upper: true },
            'è' => CharAttr { family: 4, tone: 2, upper: false },
            'È' => CharAttr { family: 4, tone: 2, upper: true },
            'ẻ' => CharAttr { family: 4, tone: 3, upper: false },
            'Ẻ' => CharAttr { family: 4, tone: 3, upper: true },
            'ẽ' => CharAttr { family: 4, tone: 4, upper: false },
            'Ẽ' => CharAttr { family: 4, tone: 4, upper: true },
            'ẹ' => CharAttr { family: 4, tone: 5, upper: false },
            'Ẹ' => CharAttr { family: 4, tone: 5, upper: true },
            'ê' => CharAttr { family: 5, tone: 0, upper: false },
            'Ê' => CharAttr { family: 5, tone: 0, upper: true },
            'ế' => CharAttr { family: 5, tone: 1, upper: false },
            'Ế' => CharAttr { family: 5, tone: 1, upper: true },
            'ề' => CharAttr { family: 5, tone: 2, upper: false },
            'Ề' => CharAttr { family: 5, tone: 2, upper: true },
            'ể' => CharAttr { family: 5, tone: 3, upper: false },
            'Ể' => CharAttr { family: 5, tone: 3, upper: true },
            'ễ' => CharAttr { family: 5, tone: 4, upper: false },
            'Ễ' => CharAttr { family: 5, tone: 4, upper: true },
            'ệ' => CharAttr { family: 5, tone: 5, upper: false },
            'Ệ' => CharAttr { family: 5, tone: 5, upper: true },
            'i' => CharAttr { family: 6, tone: 0, upper: false },
            'I' => CharAttr { family: 6, tone: 0, upper: true },
            'í' => CharAttr { family: 6, tone: 1, upper: false },
            'Í' => CharAttr { family: 6, tone: 1, upper: true },
            'ì' => CharAttr { family: 6, tone: 2, upper: false },
            'Ì' => CharAttr { family: 6, tone: 2, upper: true },
            'ỉ' => CharAttr { family: 6, tone: 3, upper: false },
            'Ỉ' => CharAttr { family: 6, tone: 3, upper: true },
            'ĩ' => CharAttr { family: 6, tone: 4, upper: false },
            'Ĩ' => CharAttr { family: 6, tone: 4, upper: true },
            'ị' => CharAttr { family: 6, tone: 5, upper: false },
            'Ị' => CharAttr { family: 6, tone: 5, upper: true },
            'o' => CharAttr { family: 7, tone: 0, upper: false },
            'O' => CharAttr { family: 7, tone: 0, upper: true },
            'ó' => CharAttr { family: 7, tone: 1, upper: false },
            'Ó' => CharAttr { family: 7, tone: 1, upper: true },
            'ò' => CharAttr { family: 7, tone: 2, upper: false },
            'Ò' => CharAttr { family: 7, tone: 2, upper: true },
            'ỏ' => CharAttr { family: 7, tone: 3, upper: false },
            'Ỏ' => CharAttr { family: 7, tone: 3, upper: true },
            'õ' => CharAttr { family: 7, tone: 4, upper: false },
            'Õ' => CharAttr { family: 7, tone: 4, upper: true },
            'ọ' => CharAttr { family: 7, tone: 5, upper: false },
            'Ọ' => CharAttr { family: 7, tone: 5, upper: true },
            'ô' => CharAttr { family: 8, tone: 0, upper: false },
            'Ô' => CharAttr { family: 8, tone: 0, upper: true },
            'ố' => CharAttr { family: 8, tone: 1, upper: false },
            'Ố' => CharAttr { family: 8, tone: 1, upper: true },
            'ồ' => CharAttr { family: 8, tone: 2, upper: false },
            'Ồ' => CharAttr { family: 8, tone: 2, upper: true },
            'ổ' => CharAttr { family: 8, tone: 3, upper: false },
            'Ổ' => CharAttr { family: 8, tone: 3, upper: true },
            'ỗ' => CharAttr { family: 8, tone: 4, upper: false },
            'Ỗ' => CharAttr { family: 8, tone: 4, upper: true },
            'ộ' => CharAttr { family: 8, tone: 5, upper: false },
            'Ộ' => CharAttr { family: 8, tone: 5, upper: true },
            'ơ' => CharAttr { family: 9, tone: 0, upper: false },
            'Ơ' => CharAttr { family: 9, tone: 0, upper: true },
            'ớ' => CharAttr { family: 9, tone: 1, upper: false },
            'Ớ' => CharAttr { family: 9, tone: 1, upper: true },
            'ờ' => CharAttr { family: 9, tone: 2, upper: false },
            'Ờ' => CharAttr { family: 9, tone: 2, upper: true },
            'ở' => CharAttr { family: 9, tone: 3, upper: false },
            'Ở' => CharAttr { family: 9, tone: 3, upper: true },
            'ỡ' => CharAttr { family: 9, tone: 4, upper: false },
            'Ỡ' => CharAttr { family: 9, tone: 4, upper: true },
            'ợ' => CharAttr { family: 9, tone: 5, upper: false },
            'Ợ' => CharAttr { family: 9, tone: 5, upper: true },
            'u' => CharAttr { family: 10, tone: 0, upper: false },
            'U' => CharAttr { family: 10, tone: 0, upper: true },
            'ú' => CharAttr { family: 10, tone: 1, upper: false },
            'Ú' => CharAttr { family: 10, tone: 1, upper: true },
            'ù' => CharAttr { family: 10, tone: 2, upper: false },
            'Ù' => CharAttr { family: 10, tone: 2, upper: true },
            'ủ' => CharAttr { family: 10, tone: 3, upper: false },
            'Ủ' => CharAttr { family: 10, tone: 3, upper: true },
            'ũ' => CharAttr { family: 10, tone: 4, upper: false },
            'Ũ' => CharAttr { family: 10, tone: 4, upper: true },
            'ụ' => CharAttr { family: 10, tone: 5, upper: false },
            'Ụ' => CharAttr { family: 10, tone: 5, upper: true },
            'ư' => CharAttr { family: 11, tone: 0, upper: false },
            'Ư' => CharAttr { family: 11, tone: 0, upper: true },
            'ứ' => CharAttr { family: 11, tone: 1, upper: false },
            'Ứ' => CharAttr { family: 11, tone: 1, upper: true },
            'ừ' => CharAttr { family: 11, tone: 2, upper: false },
            'Ừ' => CharAttr { family: 11, tone: 2, upper: true },
            'ử' => CharAttr { family: 11, tone: 3, upper: false },
            'Ử' => CharAttr { family: 11, tone: 3, upper: true },
            'ữ' => CharAttr { family: 11, tone: 4, upper: false },
            'Ữ' => CharAttr { family: 11, tone: 4, upper: true },
            'ự' => CharAttr { family: 11, tone: 5, upper: false },
            'Ự' => CharAttr { family: 11, tone: 5, upper: true },
            'y' => CharAttr { family: 12, tone: 0, upper: false },
            'Y' => CharAttr { family: 12, tone: 0, upper: true },
            'ý' => CharAttr { family: 12, tone: 1, upper: false },
            'Ý' => CharAttr { family: 12, tone: 1, upper: true },
            'ỳ' => CharAttr { family: 12, tone: 2, upper: false },
            'Ỳ' => CharAttr { family: 12, tone: 2, upper: true },
            'ỷ' => CharAttr { family: 12, tone: 3, upper: false },
            'Ỷ' => CharAttr { family: 12, tone: 3, upper: true },
            'ỹ' => CharAttr { family: 12, tone: 4, upper: false },
            'Ỹ' => CharAttr { family: 12, tone: 4, upper: true },
            'ỵ' => CharAttr { family: 12, tone: 5, upper: false },
            'Ỵ' => CharAttr { family: 12, tone: 5, upper: true },
            _ => CharAttr { family: 0, tone: 0, upper: false },
        }
}

/// The precomposed vowel of a family, tone slot and case.
pub fn vowel_form(family: u8, tone: u8, upper: bool) -> (r: char)
    requires
        1 <= family <= 12,
        tone <= TONE_DOT,
    ensures
        r == form_of(family, tone, upper),
{
        match (family, tone) {
            (1, 0) => if upper { 'A' } else { 'a' },
            (1, 1) => if upper { 'Á' } else { 'á' },
            (1, 2) => if upper { 'À' } else { 'à' },
            (1, 3) => if upper { 'Ả' } else { 'ả' },
            (1, 4) => if upper { 'Ã' } else { 'ã' },
            (1, 5) => if upper { 'Ạ' } else { 'ạ' },
            (2, 0) => if upper { 'Â' } else { 'â' },
            (2, 1) => if upper { 'Ấ' } else { 'ấ' },
            (2, 2) => if upper { 'Ầ' } else { 'ầ' },
            (2, 3) => if upper { 'Ẩ' } else { 'ẩ' },
            (2, 4) => if upper { 'Ẫ' } else { 'ẫ' },
            (2, 5) => if upper { 'Ậ' } else { 'ậ' },
            (3, 0) => if upper { 'Ă' } else { 'ă' },
            (3, 1) => if upper { 'Ắ' } else { 'ắ' },
            (3, 2) => if upper { 'Ằ' } else { 'ằ' },
            (3, 3) => if upper { 'Ẳ' } else { 'ẳ' },
            (3, 4) => if upper { 'Ẵ' } else { 'ẵ' },
            (3, 5) => if upper { 'Ặ' } else { 'ặ' },
            (4, 0) => if upper { 'E' } else { 'e' },
            (4, 1) => if upper { 'É' } else { 'é' },
            (4, 2) => if upper { 'È' } else { 'è' },
            (4, 3) => if upper { 'Ẻ' } else { 'ẻ' },
            (4, 4) => if upper { 'Ẽ' } else { 'ẽ' },
            (4, 5) => if upper { 'Ẹ' } else { 'ẹ' },
            (5, 0) => if upper { 'Ê' } else { 'ê' },
            (5, 1) => if upper { 'Ế' } else { 'ế' },
            (5, 2) => if upper { 'Ề' } else { 'ề' },
            (5, 3) => if upper { 'Ể' } else { 'ể' },
            (5, 4) => if upper { 'Ễ' } else { 'ễ' },
            (5, 5) => if upper { 'Ệ' } else { 'ệ' },
            (6, 0) => if upper { 'I' } else { 'i' },
            (6, 1) => if upper { 'Í' } else { 'í' },
            (6, 2) => if upper { 'Ì' } else { 'ì' },
            (6, 3) => if upper { 'Ỉ' } else { 'ỉ' },
            (6, 4) => if upper { 'Ĩ' } else { 'ĩ' },
            (6, 5) => if upper { 'Ị' } else { 'ị' },
            (7, 0) => if upper { 'O' } else { 'o' },
            (7, 1) => if upper { 'Ó' } else { 'ó' },
            (7, 2) => if upper { 'Ò' } else { 'ò' },
            (7, 3) => if upper { 'Ỏ' } else { 'ỏ' },
            (7, 4) => if upper { 'Õ' } else { 'õ' },
            (7, 5) => if upper { 'Ọ' } else { 'ọ' },
            (8, 0) => if upper { 'Ô' } else { 'ô' },
            (8, 1) => if upper { 'Ố' } else { 'ố' },
            (8, 2) => if upper { 'Ồ' } else { 'ồ' },
            (8, 3) => if upper { 'Ổ' } else { 'ổ' },
            (8, 4) => if upper { 'Ỗ' } else { 'ỗ' },
            (8, 5) => if upper { 'Ộ' } else { 'ộ' },
            (9, 0) => if upper { 'Ơ' } else { 'ơ' },
            (9, 1) => if upper { 'Ớ' } else { 'ớ' },
            (9, 2) => if upper { 'Ờ' } else { 'ờ' },
            (9, 3) => if upper { 'Ở' } else { 'ở' },
            (9, 4) => if upper { 'Ỡ' } else { 'ỡ' },
            (9, 5) => if upper { 'Ợ' } else { 'ợ' },
            (10, 0) => if upper { 'U' } else { 'u' },
            (10, 1) => if upper { 'Ú' } else { 'ú' },
            (10, 2) => if upper { 'Ù' } else { 'ù' },
            (10, 3) => if upper { 'Ủ' } else { 'ủ' },
            (10, 4) => if upper { 'Ũ' } else { 'ũ' },
            (10, 5) => if upper { 'Ụ' } else { 'ụ' },
            (11, 0) => if upper { 'Ư' } else { 'ư' },
            (11, 1) => if upper { 'Ứ' } else { 'ứ' },
            (11, 2) => if upper { 'Ừ' } else { 'ừ' },
            (11, 3) => if upper { 'Ử' } else { 'ử' },
            (11, 4) => if upper { 'Ữ' } else { 'ữ' },
            (11, 5) => if upper { 'Ự' } else { 'ự' },
            (12, 0) => if upper { 'Y' } else { 'y' },
            (12, 1) => if upper { 'Ý' } else { 'ý' },
            (12, 2) => if upper { 'Ỳ' } else { 'ỳ' },
            (12, 3) => if upper { 'Ỷ' } else { 'ỷ' },
            (12, 4) => if upper { 'Ỹ' } else { 'ỹ' },
            (12, 5) => if upper { 'Ỵ' } else { 'ỵ' },
            _ => '\0',
        }
}

pub proof fn lemma_attr_bounds(c: char)
    ensures
        attr_of(c).family <= 12,
        attr_of(c).tone <= TONE_DOT,
{
}

/// The modifiers that turn a base letter into another letter of its family:
/// `â ê ô`, `ă`, `ơ ư`, the Telex `w` that gives whichever of `ă ơ ư` fits,
/// and the stroke of `đ`.
#[derive(Clone, Copy, Debug, PartialEq, Eq, Structural)]
pub enum Mark {
    Circumflex,
    Breve,
    Horn,
    BreveOrHorn,
    Stroke,
}

/// The family of the bare letter under a family (`ấ`, `ă` and `a` all belong under `a`).
pub open spec fn base_family(f: u8) -> u8 {
    if f == FAMILY_A_CIRCUMFLEX || f == FAMILY_A_BREVE {
        FAMILY_A
    } else if f == FAMILY_E_CIRCUMFLEX {
        FAMILY_E
    } else if f == FAMILY_O_CIRCUMFLEX || f == FAMILY_O_HORN {
        FAMILY_O
    } else if f == FAMILY_U_HORN {
        FAMILY_U
    } else {
        f
    }
}

/// Whether the family carries a circumflex, a breve or a horn.
pub open spec fn has_diacritic(f: u8) -> bool {
    f != base_family(f)
}

/// The family that a mark makes of a vowel family, or 0 where the mark does not apply.
pub open spec fn marked_family(m: Mark, f: u8) -> u8 {
    let b = base_family(f);
    match m {
        Mark::Circumflex => if b == FAMILY_A {
            FAMILY_A_CIRCUMFLEX
        } else if b == FAMILY_E {
            FAMILY_E_CIRCUMFLEX
        } else if b == FAMILY_O {
            FAMILY_O_CIRCUMFLEX
        } else {
            0
        },
        Mark::Breve => if b == FAMILY_A {
            FAMILY_A_BREVE
        } else {
            0
        },
        Mark::Horn => if b == FAMILY_O {
            FAMILY_O_HORN
        } else if b == FAMILY_U {
            FAMILY_U_HORN
        } else {
            0
        },
        Mark::BreveOrHorn => if b == FAMILY_A {
            FAMILY_A_BREVE
        } else if b == FAMILY_O {
            FAMILY_O_HORN
        } else if b == FAMILY_U {
            FAMILY_U_HORN
        } else {
            0
        },
        Mark::Stroke => 0,
    }
}

/// What a character becomes under a mark, keeping its tone and case;
/// `None` where the mark does not apply to it. A character that already
/// carries the mark maps to itself.
pub open spec fn mark_form(m: Mark, c: char) -> Option<char> {
    if m == Mark::Stroke {
        if c == 'd' || c == 'đ' {
            Some('đ')
        } else if c == 'D' || c == 'Đ' {
            Some('Đ')
        } else {
            None
        }
    } else {
        let a = attr_of(c);
        let f = marked_family(m, a.family);
        if a.family > 0 && f > 0 {
            Some(form_of(f, a.tone, a.upper))
        } else {
            None
        }
    }
}

/// The character with its circumflex, breve, horn or stroke taken off,
/// keeping its tone and case.
pub open spec fn base_form(c: char) -> char {
    if c == 'đ' {
        'd'
    } else if c == 'Đ' {
        'D'
    } else {
        let a = attr_of(c);
        if a.family > 0 {
            form_of(base_family(a.family), a.tone, a.upper)
        } else {
            c
        }
    }
}

/// The lower-case bare letter under a vowel or a `d`; any other character itself.
pub open spec fn letter_of(c: char) -> char {
    if c == 'd' || c == 'D' || c == 'đ' || c == 'Đ' {
        'd'
    } else {
        let a = attr_of(c);
        if a.family > 0 {
            form_of(base_family(a.family), TONE_NONE, false)
        } else {
            c
        }
    }
}

/// A vowel with its tone slot replaced; any other character unchanged.
pub open spec fn toned(c: char, tone: u8) -> char {
    let a = attr_of(c);
    if a.family > 0 {
        form_of(a.family, tone, a.upper)
    } else {
        c
    }
}

pub fn base_family_of(f: u8) -> (r: u8)
    ensures
        r == base_family(f),
{
    if f == FAMILY_A_CIRCUMFLEX || f == FAMILY_A_BREVE {
        FAMILY_A
    } else if f == FAMILY_E_CIRCUMFLEX {
        FAMILY_E
    } else if f == FAMILY_O_CIRCUMFLEX || f == FAMILY_O_HORN {
        FAMILY_O
    } else if f == FAMILY_U_HORN {
        FAMILY_U
    } else {
        f
    }
}

pub fn marked_family_of(m: Mark, f: u8) -> (r: u8)
    ensures
        r == marked_family(m, f),
        r <= 12,
{
    let b = base_family_of(f);
    match m {
        Mark::Circumflex => if b == FAMILY_A {
            FAMILY_A_CIRCUMFLEX
        } else if b == FAMILY_E {
            FAMILY_E_CIRCUMFLEX
        } else if b == FAMILY_O {
            FAMILY_O_CIRCUMFLEX
        } else {
            0
        },
        Mark::Breve => if b == FAMILY_A {
            FAMILY_A_BREVE
        } else {
            0
        },
        Mark::Horn => if b == FAMILY_O {
            FAMILY_O_HORN
        } else if b == FAMILY_U {
            FAMILY_U_HORN
        } else {
            0
        },
        Mark::BreveOrHorn => if b == FAMILY_A {
            FAMILY_A_BREVE
        } else if b == FAMILY_O {
            FAMILY_O_HORN
        } else if b == FAMILY_U {
            FAMILY_U_HORN
        } else {
            0
        },
        Mark::Stroke => 0,
    }
}

/// What `c` becomes under the mark `m`, if the mark applies to it.
pub fn apply_mark(m: Mark, c: char) -> (r: Option<char>)
    ensures
        r == mark_form(m, c),
{
    match m {
        Mark::Stroke => {
            if c == 'd' || c == 'đ' {
                Some('đ')
            } else if c == 'D' || c == 'Đ' {
                Some('Đ')
            } else {
                None
            }
        },
        _ => {
            let a = char_attr(c);
            proof {
                lemma_attr_bounds(c);
            }
            let f = marked_family_of(m, a.family);
            if a.family > 0 && f > 0 {
                Some(vowel_form(f, a.tone, a.upper))
            } else {
                None
            }
        },
    }
}

/// `c` with its circumflex, breve, horn or stroke removed.
pub fn remove_mark(c: char) -> (r: char)
    ensures
        r == base_form(c),
{
    if c == 'đ' {
        'd'
    } else if c == 'Đ' {
        'D'
    } else {
        let a = char_attr(c);
        proof {
            lemma_attr_bounds(c);
        }
        if a.family > 0 {
            vowel_form(base_family_of(a.family), a.tone, a.upper)
        } else {
            c
        }
    }
}

/// The lower-case bare letter under `c`.
pub fn letter(c: char) -> (r: char)
    ensures
        r == letter_of(c),
{
    if c == 'd' || c == 'D' || c == 'đ' || c == 'Đ' {
        'd'
    } else {
        let a = char_attr(c);
        proof {
            lemma_attr_bounds(c);
        }
        if a.family > 0 {
            vowel_form(base_family_of(a.family), TONE_NONE, false)
        } else {
            c
        }
    }
}

/// `c` with its tone slot set to `tone` when it is a vowel.
pub fn apply_tone_to_base(c: char, tone: u8) -> (r: char)
    requires
        tone <= TONE_DOT,
    ensures
        r == toned(c, tone),
{
    let a = char_attr(c);
    proof {
        lemma_attr_bounds(c);
    }
    if a.family > 0 {
        vowel_form(a.family, tone, a.upper)
    } else {
        c
    }
}

/// The attribute table and the tone table agree: the form of a family, tone
/// and case is listed under that family, tone and case.
pub proof fn lemma_attr_of_form(family: u8, tone: u8, upper: bool)
    requires
        1 <= family <= 12,
        tone <= TONE_DOT,
    ensures
        attr_of(form_of(family, tone, upper)) == (CharAttr { family, tone, upper }),
{
    if family == 1 {
        assert(attr_of(form_of(family, tone, upper)) == (CharAttr { family, tone, upper }));
    } else if family == 2 {
        assert(attr_of(form_of(family, tone, upper)) == (CharAttr { family, tone, upper }));
    } else if family == 3 {
        assert(attr_of(form_of(family, tone, upper)) == (CharAttr { family, tone, upper }));
    } else if family == 4 {
        assert(attr_of(form_of(family, tone, upper)) == (CharAttr { family, tone, upper }));
    } else if family == 5 {
        assert(attr_of(form_of(family, tone, upper)) == (CharAttr { family, tone, upper }));
    } else if family == 6 {
        assert(attr_of(form_of(family, tone, upper)) == (CharAttr { family, tone, upper }));
    } else if family == 7 {
        assert(attr_of(form_of(family, tone, upper)) == (CharAttr { family, tone, upper }));
    } else if family == 8 {
        assert(attr_of(form_of(family, tone, upper)) == (CharAttr { family, tone, upper }));
    } else if family == 9 {
        assert(attr_of(form_of(family, tone, upper)) == (CharAttr { family, tone, upper }));
    } else if family == 10 {
        assert(attr_of(form_of(family, tone, upper)) == (CharAttr { family, tone, upper }));
    } else if family == 11 {
        assert(attr_of(form_of(family, tone, upper)) == (CharAttr { family, tone, upper }));
    } else if family == 12 {
        assert(attr_of(form_of(family, tone, upper)) == (CharAttr { family, tone, upper }));
    }
}

} // verus!
