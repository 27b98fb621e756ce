//! The short names of the characters of the Indic table.
use vstd::prelude::*;

verus! {

/// The names of the Devanagari block, by code point.
pub open spec fn devanagari_name(cp: u32) -> Option<&'static str> {
    if cp == 0x0900 {
        Some("Inverted Candrabindu")
    } else if cp == 0x0901 {
        Some("Candrabindu")
    } else if cp == 0x0902 {
        Some("Anusvara")
    } else if cp == 0x0903 {
        Some("Visarga")
    } else if cp == 0x0904 {
        Some("Short A")
    } else if cp == 0x0905 {
        Some("A")
    } else if cp == 0x0906 {
        Some("Aa")
    } else if cp == 0x0907 {
        Some("I")
    } else if cp == 0x0908 {
        Some("Ii")
    } else if cp == 0x0909 {
        Some("U")
    } else if cp == 0x090A {
        Some("Uu")
    } else if cp == 0x090B {
        Some("Vocalic R")
    } else if cp == 0x090C {
        Some("Vocalic L")
    } else if cp == 0x090D {
        Some("Candra E")
    } else if cp == 0x090E {
        Some("Short E")
    } else if cp == 0x090F {
        Some("E")
    } else if cp == 0x0910 {
        Some("Ai")
    } else if cp == 0x0911 {
        Some("Candra O")
    } else if cp == 0x0912 {
        Some("Short O")
    } else if cp == 0x0913 {
        Some("O")
    } else if cp == 0x0914 {
        Some("Au")
    } else if cp == 0x0915 {
        Some("Ka")
    } else if cp == 0x0916 {
        Some("Kha")
    } else if cp == 0x0917 {
        Some("Ga")
    } else if cp == 0x0918 {
        Some("Gha")
    } else if cp == 0x0919 {
        Some("Nga")
    } else if cp == 0x091A {
        Some("Ca")
    } else if cp == 0x091B {
        Some("Cha")
    } else if cp == 0x091C {
        Some("Ja")
    } else if cp == 0x091D {
        Some("Jha")
    } else if cp == 0x091E {
        Some("Nya")
    } else if cp == 0x091F {
        Some("Tta")
    } else if cp == 0x0920 {
        Some("Ttha")
    } else if cp == 0x0921 {
        Some("Dda")
    } else if cp == 0x0922 {
        Some("Ddha")
    } else if cp == 0x0923 {
        Some("Nna")
    } else if cp == 0x0924 {
        Some("Ta")
    } else if cp == 0x0925 {
        Some("Tha")
    } else if cp == 0x0926 {
        Some("Da")
    } else if cp == 0x0927 {
        Some("Dha")
    } else if cp == 0x0928 {
        Some("Na")
    } else if cp == 0x0929 {
        Some("Nnna")
    } else if cp == 0x092A {
        Some("Pa")
    } else if cp == 0x092B {
        Some("Pha")
    } else if cp == 0x092C {
        Some("Ba")
    } else if cp == 0x092D {
        Some("Bha")
    } else if cp == 0x092E {
        Some("Ma")
    } else if cp == 0x092F {
        Some("Ya")
    } else if cp == 0x0930 {
        Some("Ra")
    } else if cp == 0x0931 {
        Some("Rra")
    } else if cp == 0x0932 {
        Some("La")
    } else if cp == 0x0933 {
        Some("Lla")
    } else if cp == 0x0934 {
        Some("Llla")
    } else if cp == 0x0935 {
        Some("Va")
    } else if cp == 0x0936 {
        Some("Sha")
    } else if cp == 0x0937 {
        Some("Ssa")
    } else if cp == 0x0938 {
        Some("Sa")
    } else if cp == 0x0939 {
        Some("Ha")
    } else if cp == 0x093A {
        Some("Sign Oe")
    } else if cp == 0x093B {
        Some("Sign Ooe")
    } else if cp == 0x093C {
        Some("Nukta")
    } else if cp == 0x093D {
        Some("Avagraha")
    } else if cp == 0x093E {
        Some("Sign Aa")
    } else if cp == 0x093F {
        Some("Sign I")
    } else if cp == 0x0940 {
        Some("Sign Ii")
    } else if cp == 0x0941 {
        Some("Sign U")
    } else if cp == 0x0942 {
        Some("Sign Uu")
    } else if cp == 0x0943 {
        Some("Sign Vocalic R")
    } else if cp == 0x0944 {
        Some("Sign Vocalic Rr")
    } else if cp == 0x0945 {
        Some("Sign Candra E")
    } else if cp == 0x0946 {
        Some("Sign Short E")
    } else if cp == 0x0947 {
        Some("Sign E")
    } else if cp == 0x0948 {
        Some("Sign Ai")
    } else if cp == 0x0949 {
        Some("Sign Candra O")
    } else if cp == 0x094A {
        Some("Sign Short O")
    } else if cp == 0x094B {
        Some("Sign O")
    } else if cp == 0x094C {
        Some("Sign Au")
    } else if cp == 0x094D {
        Some("Virama")
    } else if cp == 0x094E {
        Some("Sign Prishthamatra E")
    } else if cp == 0x094F {
        Some("Sign Aw")
    } else if cp == 0x0950 {
        Some("Om")
    } else if cp == 0x0951 {
        Some("Udatta")
    } else if cp == 0x0952 {
        Some("Anudatta")
    } else if cp == 0x0953 {
        Some("Grave accent")
    } else if cp == 0x0954 {
        Some("Acute accent")
    } else if cp == 0x0955 {
        Some("Sign Candra Long E")
    } else if cp == 0x0956 {
        Some("Sign Ue")
    } else if cp == 0x0957 {
        Some("Sign Uue")
    } else if cp == 0x0958 {
        Some("Qa")
    } else if cp == 0x0959 {
        Some("Khha")
    } else if cp == 0x095A {
        Some("Ghha")
    } else if cp == 0x095B {
        Some("Za")
    } else if cp == 0x095C {
        Some("Dddha")
    } else if cp == 0x095D {
        Some("Rha")
    } else if cp == 0x095E {
        Some("Fa")
    } else if cp == 0x095F {
        Some("Yya")
    } else if cp == 0x0960 {
        Some("Vocalic Rr")
    } else if cp == 0x0961 {
        Some("Vocalic Ll")
    } else if cp == 0x0962 {
        Some("Sign Vocalic L")
    } else if cp == 0x0963 {
        Some("Sign Vocalic Ll")
    } else if cp == 0x0964 {
        Some("Danda")
    } else if cp == 0x0965 {
        Some("Double Danda")
    } else if cp == 0x0966 {
        Some("Digit Zero")
    } else if cp == 0x0967 {
        Some("Digit One")
    } else if cp == 0x0968 {
        Some("Digit Two")
    } else if cp == 0x0969 {
        Some("Digit Three")
    } else if cp == 0x096A {
        Some("Digit Four")
    } else if cp == 0x096B {
        Some("Digit Five")
    } else if cp == 0x096C {
        Some("Digit Six")
    } else if cp == 0x096D {
        Some("Digit Seven")
    } else if cp == 0x096E {
        Some("Digit Eight")
    } else if cp == 0x096F {
        Some("Digit Nine")
    } else if cp == 0x0970 {
        Some("Abbreviation Sign")
    } else if cp == 0x0971 {
        Some("Sign High Spacing Dot")
    } else if cp == 0x0972 {
        Some("Candra Aa")
    } else if cp == 0x0973 {
        Some("Oe")
    } else if cp == 0x0974 {
        Some("Ooe")
    } else if cp == 0x0975 {
        Some("Aw")
    } else if cp == 0x0976 {
        Some("Ue")
    } else if cp == 0x0977 {
        Some("Uue")
    } else if cp == 0x0978 {
        Some("Marwari Dda")
    } else if cp == 0x0979 {
        Some("Zha")
    } else if cp == 0x097A {
        Some("Heavy Ya")
    } else if cp == 0x097B {
        Some("Gga")
    } else if cp == 0x097C {
        Some("Jja")
    } else if cp == 0x097D {
        Some("Glottal Stop")
    } else if cp == 0x097E {
        Some("Ddda")
    } else if cp == 0x097F {
        Some("Bba")
    } else {
        None
    }
}

fn devanagari_block_name(cp: u32) -> (r: Option<&'static str>)
    ensures
        r == devanagari_name(cp),
{
    match cp {
        0x0900 => Some("Inverted Candrabindu"),
        0x0901 => Some("Candrabindu"),
        0x0902 => Some("Anusvara"),
        0x0903 => Some("Visarga"),
        0x0904 => Some("Short A"),
        0x0905 => Some("A"),
        0x0906 => Some("Aa"),
        0x0907 => Some("I"),
        0x0908 => Some("Ii"),
        0x0909 => Some("U"),
        0x090A => Some("Uu"),
        0x090B => Some("Vocalic R"),
        0x090C => Some("Vocalic L"),
        0x090D => Some("Candra E"),
        0x090E => Some("Short E"),
        0x090F => Some("E"),
        0x0910 => Some("Ai"),
        0x0911 => Some("Candra O"),
        0x0912 => Some("Short O"),
        0x0913 => Some("O"),
        0x0914 => Some("Au"),
        0x0915 => Some("Ka"),
        0x0916 => Some("Kha"),
        0x0917 => Some("Ga"),
        0x0918 => Some("Gha"),
        0x0919 => Some("Nga"),
        0x091A => Some("Ca"),
        0x091B => Some("Cha"),
        0x091C => Some("Ja"),
        0x091D => Some("Jha"),
        0x091E => Some("Nya"),
        0x091F => Some("Tta"),
        0x0920 => Some("Ttha"),
        0x0921 => Some("Dda"),
        0x0922 => Some("Ddha"),
        0x0923 => Some("Nna"),
        0x0924 => Some("Ta"),
        0x0925 => Some("Tha"),
        0x0926 => Some("Da"),
        0x0927 => Some("Dha"),
        0x0928 => Some("Na"),
        0x0929 => Some("Nnna"),
        0x092A => Some("Pa"),
        0x092B => Some("Pha"),
        0x092C => Some("Ba"),
        0x092D => Some("Bha"),
        0x092E => Some("Ma"),
        0x092F => Some("Ya"),
        0x0930 => Some("Ra"),
        0x0931 => Some("Rra"),
        0x0932 => Some("La"),
        0x0933 => Some("Lla"),
        0x0934 => Some("Llla"),
        0x0935 => Some("Va"),
        0x0936 => Some("Sha"),
        0x0937 => Some("Ssa"),
        0x0938 => Some("Sa"),
        0x0939 => Some("Ha"),
        0x093A => Some("Sign Oe"),
        0x093B => Some("Sign Ooe"),
        0x093C => Some("Nukta"),
        0x093D => Some("Avagraha"),
        0x093E => Some("Sign Aa"),
        0x093F => Some("Sign I"),
        0x0940 => Some("Sign Ii"),
        0x0941 => Some("Sign U"),
        0x0942 => Some("Sign Uu"),
        0x0943 => Some("Sign Vocalic R"),
        0x0944 => Some("Sign Vocalic Rr"),
        0x0945 => Some("Sign Candra E"),
        0x0946 => Some("Sign Short E"),
        0x0947 => Some("Sign E"),
        0x0948 => Some("Sign Ai"),
        0x0949 => Some("Sign Candra O"),
        0x094A => Some("Sign Short O"),
        0x094B => Some("Sign O"),
        0x094C => Some("Sign Au"),
        0x094D => Some("Virama"),
        0x094E => Some("Sign Prishthamatra E"),
        0x094F => Some("Sign Aw"),
        0x0950 => Some("Om"),
        0x0951 => Some("Udatta"),
        0x0952 => Some("Anudatta"),
        0x0953 => Some("Grave accent"),
        0x0954 => Some("Acute accent"),
        0x0955 => Some("Sign Candra Long E"),
        0x0956 => Some("Sign Ue"),
        0x0957 => Some("Sign Uue"),
        0x0958 => Some("Qa"),
        0x0959 => Some("Khha"),
        0x095A => Some("Ghha"),
        0x095B => Some("Za"),
        0x095C => Some("Dddha"),
        0x095D => Some("Rha"),
        0x095E => Some("Fa"),
        0x095F => Some("Yya"),
        0x0960 => Some("Vocalic Rr"),
        0x0961 => Some("Vocalic Ll"),
        0x0962 => Some("Sign Vocalic L"),
        0x0963 => Some("Sign Vocalic Ll"),
        0x0964 => Some("Danda"),
        0x0965 => Some("Double Danda"),
        0x0966 => Some("Digit Zero"),
        0x0967 => Some("Digit One"),
        0x0968 => Some("Digit Two"),
        0x0969 => Some("Digit Three"),
        0x096A => Some("Digit Four"),
        0x096B => Some("Digit Five"),
        0x096C => Some("Digit Six"),
        0x096D => Some("Digit Seven"),
        0x096E => Some("Digit Eight"),
        0x096F => Some("Digit Nine"),
        0x0970 => Some("Abbreviation Sign"),
        0x0971 => Some("Sign High Spacing Dot"),
        0x0972 => Some("Candra Aa"),
        0x0973 => Some("Oe"),
        0x0974 => Some("Ooe"),
        0x0975 => Some("Aw"),
        0x0976 => Some("Ue"),
        0x0977 => Some("Uue"),
        0x0978 => Some("Marwari Dda"),
        0x0979 => Some("Zha"),
        0x097A => Some("Heavy Ya"),
        0x097B => Some("Gga"),
        0x097C => Some("Jja"),
        0x097D => Some("Glottal Stop"),
        0x097E => Some("Ddda"),
        0x097F => Some("Bba"),
        _ => None,
    }
}

/// The names of the Bengali block, by code point.
pub open spec fn bengali_name(cp: u32) -> Option<&'static str> {
    if cp == 0x0980 {
        Some("Anji")
    } else if cp == 0x0981 {
        Some("Candrabindu")
    } else if cp == 0x0982 {
        Some("Anusvara")
    } else if cp == 0x0983 {
        Some("Visarga")
    } else if cp == 0x0985 {
        Some("A")
    } else if cp == 0x0986 {
        Some("Aa")
    } else if cp == 0x0987 {
        Some("I")
    } else if cp == 0x0988 {
        Some("Ii")
    } else if cp == 0x0989 {
        Some("U")
    } else if cp == 0x098A {
        Some("Uu")
    } else if cp == 0x098B {
        Some("Vocalic R")
    } else if cp == 0x098C {
        Some("Vocalic L")
    } else if cp == 0x098F {
        Some("E")
    } else if cp == 0x0990 {
        Some("Ai")
    } else if cp == 0x0993 {
        Some("O")
    } else if cp == 0x0994 {
        Some("Au")
    } else if cp == 0x0995 {
        Some("Ka")
    } else if cp == 0x0996 {
        Some("Kha")
    } else if cp == 0x0997 {
        Some("Ga")
    } else if cp == 0x0998 {
        Some("Gha")
    } else if cp == 0x0999 {
        Some("Nga")
    } else if cp == 0x099A {
        Some("Ca")
    } else if cp == 0x099B {
        Some("Cha")
    } else if cp == 0x099C {
        Some("Ja")
    } else if cp == 0x099D {
        Some("Jha")
    } else if cp == 0x099E {
        Some("Nya")
    } else if cp == 0x099F {
        Some("Tta")
    } else if cp == 0x09A0 {
        Some("Ttha")
    } else if cp == 0x09A1 {
        Some("Dda")
    } else if cp == 0x09A2 {
        Some("Ddha")
    } else if cp == 0x09A3 {
        Some("Nna")
    } else if cp == 0x09A4 {
        Some("Ta")
    } else if cp == 0x09A5 {
        Some("Tha")
    } else if cp == 0x09A6 {
        Some("Da")
    } else if cp == 0x09A7 {
        Some("Dha")
    } else if cp == 0x09A8 {
        Some("Na")
    } else if cp == 0x09AA {
        Some("Pa")
    } else if cp == 0x09AB {
        Some("Pha")
    } else if cp == 0x09AC {
        Some("Ba")
    } else if cp == 0x09AD {
        Some("Bha")
    } else if cp == 0x09AE {
        Some("Ma")
    } else if cp == 0x09AF {
        Some("Ya")
    } else if cp == 0x09B0 {
        Some("Ra")
    } else if cp == 0x09B2 {
        Some("La")
    } else if cp == 0x09B6 {
        Some("Sha")
    } else if cp == 0x09B7 {
        Some("Ssa")
    } else if cp == 0x09B8 {
        Some("Sa")
    } else if cp == 0x09B9 {
        Some("Ha")
    } else if cp == 0x09BC {
        Some("Nukta")
    } else if cp == 0x09BD {
        Some("Avagraha")
    } else if cp == 0x09BE {
        Some("Sign Aa")
    } else if cp == 0x09BF {
        Some("Sign I")
    } else if cp == 0x09C0 {
        Some("Sign Ii")
    } else if cp == 0x09C1 {
        Some("Sign U")
    } else if cp == 0x09C2 {
        Some("Sign Uu")
    } else if cp == 0x09C3 {
        Some("Sign Vocalic R")
    } else if cp == 0x09C4 {
        Some("Sign Vocalic Rr")
    } else if cp == 0x09C7 {
        Some("Sign E")
    } else if cp == 0x09C8 {
        Some("Sign Ai")
    } else if cp == 0x09CB {
        Some("Sign O")
    } else if cp == 0x09CC {
        Some("Sign Au")
    } else if cp == 0x09CD {
        Some("Virama")
    } else if cp == 0x09CE {
        Some("Khanda Ta")
    } else if cp == 0x09D7 {
        Some("Au Length Mark")
    } else if cp == 0x09DC {
        Some("Rra")
    } else if cp == 0x09DD {
        Some("Rha")
    } else if cp == 0x09DF {
        Some("Yya")
    } else if cp == 0x09E0 {
        Some("Vocalic Rr")
    } else if cp == 0x09E1 {
        Some("Vocalic Ll")
    } else if cp == 0x09E2 {
        Some("Sign Vocalic L")
    } else if cp == 0x09E3 {
        Some("Sign Vocalic Ll")
    } else if cp == 0x09E6 {
        Some("Digit Zero")
    } else if cp == 0x09E7 {
        Some("Digit One")
    } else if cp == 0x09E8 {
        Some("Digit Two")
    } else if cp == 0x09E9 {
        Some("Digit Three")
    } else if cp == 0x09EA {
        Some("Digit Four")
    } else if cp == 0x09EB {
        Some("Digit Five")
    } else if cp == 0x09EC {
        Some("Digit Six")
    } else if cp == 0x09ED {
        Some("Digit Seven")
    } else if cp == 0x09EE {
        Some("Digit Eight")
    } else if cp == 0x09EF {
        Some("Digit Nine")
    } else if cp == 0x09F0 {
        Some("Assamese Ra")
    } else if cp == 0x09F1 {
        Some("Assamese Wa")
    } else if cp == 0x09F2 {
        Some("Rupee Mark")
    } else if cp == 0x09F3 {
        Some("Rupee Sign")
    } else if cp == 0x09F4 {
        Some("Numerator One")
    } else if cp == 0x09F5 {
        Some("Numerator Two")
    } else if cp == 0x09F6 {
        Some("Numerator Three")
    } else if cp == 0x09F7 {
        Some("Numerator Four")
    } else if cp == 0x09F8 {
        Some("Numerator One Less Than Denominator")
    } else if cp == 0x09F9 {
        Some("Denominator Sixteen")
    } else if cp == 0x09FA {
        Some("Isshar")
    } else if cp == 0x09FB {
        Some("Ganda Mark")
    } else if cp == 0x09FC {
        Some("Vedic Anusvara")
    } else if cp == 0x09FD {
        Some("Abbreviation Sign")
    } else if cp == 0x09FE {
        Some("Sandhi Mark")
    } else {
        None
    }
}

fn bengali_block_name(cp: u32) -> (r: Option<&'static str>)
    ensures
        r == bengali_name(cp),
{
    match cp {
        0x0980 => Some("Anji"),
        0x0981 => Some("Candrabindu"),
        0x0982 => Some("Anusvara"),
        0x0983 => Some("Visarga"),
        0x0985 => Some("A"),
        0x0986 => Some("Aa"),
        0x0987 => Some("I"),
        0x0988 => Some("Ii"),
        0x0989 => Some("U"),
        0x098A => Some("Uu"),
        0x098B => Some("Vocalic R"),
        0x098C => Some("Vocalic L"),
        0x098F => Some("E"),
        0x0990 => Some("Ai"),
        0x0993 => Some("O"),
        0x0994 => Some("Au"),
        0x0995 => Some("Ka"),
        0x0996 => Some("Kha"),
        0x0997 => Some("Ga"),
        0x0998 => Some("Gha"),
        0x0999 => Some("Nga"),
        0x099A => Some("Ca"),
        0x099B => Some("Cha"),
        0x099C => Some("Ja"),
        0x099D => Some("Jha"),
        0x099E => Some("Nya"),
        0x099F => Some("Tta"),
        0x09A0 => Some("Ttha"),
        0x09A1 => Some("Dda"),
        0x09A2 => Some("Ddha"),
        0x09A3 => Some("Nna"),
        0x09A4 => Some("Ta"),
        0x09A5 => Some("Tha"),
        0x09A6 => Some("Da"),
        0x09A7 => Some("Dha"),
        0x09A8 => Some("Na"),
        0x09AA => Some("Pa"),
        0x09AB => Some("Pha"),
        0x09AC => Some("Ba"),
        0x09AD => Some("Bha"),
        0x09AE => Some("Ma"),
        0x09AF => Some("Ya"),
        0x09B0 => Some("Ra"),
        0x09B2 => Some("La"),
        0x09B6 => Some("Sha"),
        0x09B7 => Some("Ssa"),
        0x09B8 => Some("Sa"),
        0x09B9 => Some("Ha"),
        0x09BC => Some("Nukta"),
        0x09BD => Some("Avagraha"),
        0x09BE => Some("Sign Aa"),
        0x09BF => Some("Sign I"),
        0x09C0 => Some("Sign Ii"),
        0x09C1 => Some("Sign U"),
        0x09C2 => Some("Sign Uu"),
        0x09C3 => Some("Sign Vocalic R"),
        0x09C4 => Some("Sign Vocalic Rr"),
        0x09C7 => Some("Sign E"),
        0x09C8 => Some("Sign Ai"),
        0x09CB => Some("Sign O"),
        0x09CC => Some("Sign Au"),
        0x09CD => Some("Virama"),
        0x09CE => Some("Khanda Ta"),
        0x09D7 => Some("Au Length Mark"),
        0x09DC => Some("Rra"),
        0x09DD => Some("Rha"),
        0x09DF => Some("Yya"),
        0x09E0 => Some("Vocalic Rr"),
        0x09E1 => Some("Vocalic Ll"),
        0x09E2 => Some("Sign Vocalic L"),
        0x09E3 => Some("Sign Vocalic Ll"),
        0x09E6 => Some("Digit Zero"),
        0x09E7 => Some("Digit One"),
        0x09E8 => Some("Digit Two"),
        0x09E9 => Some("Digit Three"),
        0x09EA => Some("Digit Four"),
        0x09EB => Some("Digit Five"),
        0x09EC => Some("Digit Six"),
        0x09ED => Some("Digit Seven"),
        0x09EE => Some("Digit Eight"),
        0x09EF => Some("Digit Nine"),
        0x09F0 => Some("Assamese Ra"),
        0x09F1 => Some("Assamese Wa"),
        0x09F2 => Some("Rupee Mark"),
        0x09F3 => Some("Rupee Sign"),
        0x09F4 => Some("Numerator One"),
        0x09F5 => Some("Numerator Two"),
        0x09F6 => Some("Numerator Three"),
        0x09F7 => Some("Numerator Four"),
        0x09F8 => Some("Numerator One Less Than Denominator"),
        0x09F9 => Some("Denominator Sixteen"),
        0x09FA => Some("Isshar"),
        0x09FB => Some("Ganda Mark"),
        0x09FC => Some("Vedic Anusvara"),
        0x09FD => Some("Abbreviation Sign"),
        0x09FE => Some("Sandhi Mark"),
        _ => None,
    }
}

/// The names of the Gurmukhi block, by code point.
pub open spec fn gurmukhi_name(cp: u32) -> Option<&'static str> {
    if cp == 0x0A01 {
        Some("Adak Bindi")
    } else if cp == 0x0A02 {
        Some("Bindi")
    } else if cp == 0x0A03 {
        Some("Visarga")
    } else if cp == 0x0A05 {
        Some("A")
    } else if cp == 0x0A06 {
        Some("Aa")
    } else if cp == 0x0A07 {
        Some("I")
    } else if cp == 0x0A08 {
        Some("Ii")
    } else if cp == 0x0A09 {
        Some("U")
    } else if cp == 0x0A0A {
        Some("Uu")
    } else if cp == 0x0A0F {
        Some("Ee")
    } else if cp == 0x0A10 {
        Some("Ai")
    } else if cp == 0x0A13 {
        Some("Oo")
    } else if cp == 0x0A14 {
        Some("Au")
    } else if cp == 0x0A15 {
        Some("Ka")
    } else if cp == 0x0A16 {
        Some("Kha")
    } else if cp == 0x0A17 {
        Some("Ga")
    } else if cp == 0x0A18 {
        Some("Gha")
    } else if cp == 0x0A19 {
        Some("Nga")
    } else if cp == 0x0A1A {
        Some("Ca")
    } else if cp == 0x0A1B {
        Some("Cha")
    } else if cp == 0x0A1C {
        Some("Ja")
    } else if cp == 0x0A1D {
        Some("Jha")
    } else if cp == 0x0A1E {
        Some("Nya")
    } else if cp == 0x0A1F {
        Some("Tta")
    } else if cp == 0x0A20 {
        Some("Ttha")
    } else if cp == 0x0A21 {
        Some("Dda")
    } else if cp == 0x0A22 {
        Some("Ddha")
    } else if cp == 0x0A23 {
        Some("Nna")
    } else if cp == 0x0A24 {
        Some("Ta")
    } else if cp == 0x0A25 {
        Some("Tha")
    } else if cp == 0x0A26 {
        Some("Da")
    } else if cp == 0x0A27 {
        Some("Dha")
    } else if cp == 0x0A28 {
        Some("Na")
    } else if cp == 0x0A2A {
        Some("Pa")
    } else if cp == 0x0A2B {
        Some("Pha")
    } else if cp == 0x0A2C {
        Some("Ba")
    } else if cp == 0x0A2D {
        Some("Bha")
    } else if cp == 0x0A2E {
        Some("Ma")
    } else if cp == 0x0A2F {
        Some("Ya")
    } else if cp == 0x0A30 {
        Some("Ra")
    } else if cp == 0x0A32 {
        Some("La")
    } else if cp == 0x0A33 {
        Some("Lla")
    } else if cp == 0x0A35 {
        Some("Va")
    } else if cp == 0x0A36 {
        Some("Sha")
    } else if cp == 0x0A38 {
        Some("Sa")
    } else if cp == 0x0A39 {
        Some("Ha")
    } else if cp == 0x0A3C {
        Some("Nukta")
    } else if cp == 0x0A3E {
        Some("Sign Aa")
    } else if cp == 0x0A3F {
        Some("Sign I")
    } else if cp == 0x0A40 {
        Some("Sign Ii")
    } else if cp == 0x0A41 {
        Some("Sign U")
    } else if cp == 0x0A42 {
        Some("Sign Uu")
    } else if cp == 0x0A47 {
        Some("Sign Ee")
    } else if cp == 0x0A48 {
        Some("Sign Ai")
    } else if cp == 0x0A4B {
        Some("Sign Oo")
    } else if cp == 0x0A4C {
        Some("Sign Au")
    } else if cp == 0x0A4D {
        Some("Virama")
    } else if cp == 0x0A51 {
        Some("Udaat")
    } else if cp == 0x0A59 {
        Some("Khha")
    } else if cp == 0x0A5A {
        Some("Ghha")
    } else if cp == 0x0A5B {
        Some("Za")
    } else if cp == 0x0A5C {
        Some("Rra")
    } else if cp == 0x0A5E {
        Some("Fa")
    } else if cp == 0x0A66 {
        Some("Digit Zero")
    } else if cp == 0x0A67 {
        Some("Digit One")
    } else if cp == 0x0A68 {
        Some("Digit Two")
    } else if cp == 0x0A69 {
        Some("Digit Three")
    } else if cp == 0x0A6A {
        Some("Digit Four")
    } else if cp == 0x0A6B {
        Some("Digit Five")
    } else if cp == 0x0A6C {
        Some("Digit Six")
    } else if cp == 0x0A6D {
        Some("Digit Seven")
    } else if cp == 0x0A6E {
        Some("Digit Eight")
    } else if cp == 0x0A6F {
        Some("Digit Nine")
    } else if cp == 0x0A70 {
        Some("Tippi")
    } else if cp == 0x0A71 {
        Some("Addak")
    } else if cp == 0x0A72 {
        Some("Iri")
    } else if cp == 0x0A73 {
        Some("Ura")
    } else if cp == 0x0A74 {
        Some("Ek Onkar")
    } else if cp == 0x0A75 {
        Some("Yakash")
    } else if cp == 0x0A76 {
        Some("Abbreviation Sign")
    } else {
        None
    }
}

fn gurmukhi_block_name(cp: u32) -> (r: Option<&'static str>)
    ensures
        r == gurmukhi_name(cp),
{
    match cp {
        0x0A01 => Some("Adak Bindi"),
        0x0A02 => Some("Bindi"),
        0x0A03 => Some("Visarga"),
        0x0A05 => Some("A"),
        0x0A06 => Some("Aa"),
        0x0A07 => Some("I"),
        0x0A08 => Some("Ii"),
        0x0A09 => Some("U"),
        0x0A0A => Some("Uu"),
        0x0A0F => Some("Ee"),
        0x0A10 => Some("Ai"),
        0x0A13 => Some("Oo"),
        0x0A14 => Some("Au"),
        0x0A15 => Some("Ka"),
        0x0A16 => Some("Kha"),
        0x0A17 => Some("Ga"),
        0x0A18 => Some("Gha"),
        0x0A19 => Some("Nga"),
        0x0A1A => Some("Ca"),
        0x0A1B => Some("Cha"),
        0x0A1C => Some("Ja"),
        0x0A1D => Some("Jha"),
        0x0A1E => Some("Nya"),
        0x0A1F => Some("Tta"),
        0x0A20 => Some("Ttha"),
        0x0A21 => Some("Dda"),
        0x0A22 => Some("Ddha"),
        0x0A23 => Some("Nna"),
        0x0A24 => Some("Ta"),
        0x0A25 => Some("Tha"),
        0x0A26 => Some("Da"),
        0x0A27 => Some("Dha"),
        0x0A28 => Some("Na"),
        0x0A2A => Some("Pa"),
        0x0A2B => Some("Pha"),
        0x0A2C => Some("Ba"),
        0x0A2D => Some("Bha"),
        0x0A2E => Some("Ma"),
        0x0A2F => Some("Ya"),
        0x0A30 => Some("Ra"),
        0x0A32 => Some("La"),
        0x0A33 => Some("Lla"),
        0x0A35 => Some("Va"),
        0x0A36 => Some("Sha"),
        0x0A38 => Some("Sa"),
        0x0A39 => Some("Ha"),
        0x0A3C => Some("Nukta"),
        0x0A3E => Some("Sign Aa"),
        0x0A3F => Some("Sign I"),
        0x0A40 => Some("Sign Ii"),
        0x0A41 => Some("Sign U"),
        0x0A42 => Some("Sign Uu"),
        0x0A47 => Some("Sign Ee"),
        0x0A48 => Some("Sign Ai"),
        0x0A4B => Some("Sign Oo"),
        0x0A4C => Some("Sign Au"),
        0x0A4D => Some("Virama"),
        0x0A51 => Some("Udaat"),
        0x0A59 => Some("Khha"),
        0x0A5A => Some("Ghha"),
        0x0A5B => Some("Za"),
        0x0A5C => Some("Rra"),
        0x0A5E => Some("Fa"),
        0x0A66 => Some("Digit Zero"),
        0x0A67 => Some("Digit One"),
        0x0A68 => Some("Digit Two"),
        0x0A69 => Some("Digit Three"),
        0x0A6A => Some("Digit Four"),
        0x0A6B => Some("Digit Five"),
        0x0A6C => Some("Digit Six"),
        0x0A6D => Some("Digit Seven"),
        0x0A6E => Some("Digit Eight"),
        0x0A6F => Some("Digit Nine"),
        0x0A70 => Some("Tippi"),
        0x0A71 => Some("Addak"),
        0x0A72 => Some("Iri"),
        0x0A73 => Some("Ura"),
        0x0A74 => Some("Ek Onkar"),
        0x0A75 => Some("Yakash"),
        0x0A76 => Some("Abbreviation Sign"),
        _ => None,
    }
}

/// The names of the Gujarati block, by code point.
pub open spec fn gujarati_name(cp: u32) -> Option<&'static str> {
    if cp == 0x0A81 {
        Some("Candrabindu")
    } else if cp == 0x0A82 {
        Some("Anusvara")
    } else if cp == 0x0A83 {
        Some("Visarga")
    } else if cp == 0x0A85 {
        Some("A")
    } else if cp == 0x0A86 {
        Some("Aa")
    } else if cp == 0x0A87 {
        Some("I")
    } else if cp == 0x0A88 {
        Some("Ii")
    } else if cp == 0x0A89 {
        Some("U")
    } else if cp == 0x0A8A {
        Some("Uu")
    } else if cp == 0x0A8B {
        Some("Vocalic R")
    } else if cp == 0x0A8C {
        Some("Vocalic L")
    } else if cp == 0x0A8D {
        Some("Candra E")
    } else if cp == 0x0A8F {
        Some("E")
    } else if cp == 0x0A90 {
        Some("Ai")
    } else if cp == 0x0A91 {
        Some("Candra O")
    } else if cp == 0x0A93 {
        Some("O")
    } else if cp == 0x0A94 {
        Some("Au")
    } else if cp == 0x0A95 {
        Some("Ka")
    } else if cp == 0x0A96 {
        Some("Kha")
    } else if cp == 0x0A97 {
        Some("Ga")
    } else if cp == 0x0A98 {
        Some("Gha")
    } else if cp == 0x0A99 {
        Some("Nga")
    } else if cp == 0x0A9A {
        Some("Ca")
    } else if cp == 0x0A9B {
        Some("Cha")
    } else if cp == 0x0A9C {
        Some("Ja")
    } else if cp == 0x0A9D {
        Some("Jha")
    } else if cp == 0x0A9E {
        Some("Nya")
    } else if cp == 0x0A9F {
        Some("Tta")
    } else if cp == 0x0AA0 {
        Some("Ttha")
    } else if cp == 0x0AA1 {
        Some("Dda")
    } else if cp == 0x0AA2 {
        Some("Ddha")
    } else if cp == 0x0AA3 {
        Some("Nna")
    } else if cp == 0x0AA4 {
        Some("Ta")
    } else if cp == 0x0AA5 {
        Some("Tha")
    } else if cp == 0x0AA6 {
        Some("Da")
    } else if cp == 0x0AA7 {
        Some("Dha")
    } else if cp == 0x0AA8 {
        Some("Na")
    } else if cp == 0x0AAA {
        Some("Pa")
    } else if cp == 0x0AAB {
        Some("Pha")
    } else if cp == 0x0AAC {
        Some("Ba")
    } else if cp == 0x0AAD {
        Some("Bha")
    } else if cp == 0x0AAE {
        Some("Ma")
    } else if cp == 0x0AAF {
        Some("Ya")
    } else if cp == 0x0AB0 {
        Some("Ra")
    } else if cp == 0x0AB2 {
        Some("La")
    } else if cp == 0x0AB3 {
        Some("Lla")
    } else if cp == 0x0AB5 {
        Some("Va")
    } else if cp == 0x0AB6 {
        Some("Sha")
    } else if cp == 0x0AB7 {
        Some("Ssa")
    } else if cp == 0x0AB8 {
        Some("Sa")
    } else if cp == 0x0AB9 {
        Some("Ha")
    } else if cp == 0x0ABC {
        Some("Nukta")
    } else if cp == 0x0ABD {
        Some("Avagraha")
    } else if cp == 0x0ABE {
        Some("Sign Aa")
    } else if cp == 0x0ABF {
        Some("Sign I")
    } else if cp == 0x0AC0 {
        Some("Sign Ii")
    } else if cp == 0x0AC1 {
        Some("Sign U")
    } else if cp == 0x0AC2 {
        Some("Sign Uu")
    } else if cp == 0x0AC3 {
        Some("Sign Vocalic R")
    } else if cp == 0x0AC4 {
        Some("Sign Vocalic Rr")
    } else if cp == 0x0AC5 {
        Some("Sign Candra E")
    } else if cp == 0x0AC7 {
        Some("Sign E")
    } else if cp == 0x0AC8 {
        Some("Sign Ai")
    } else if cp == 0x0AC9 {
        Some("Sign Candra O")
    } else if cp == 0x0ACB {
        Some("Sign O")
    } else if cp == 0x0ACC {
        Some("Sign Au")
    } else if cp == 0x0ACD {
        Some("Virama")
    } else if cp == 0x0AD0 {
        Some("Om")
    } else if cp == 0x0AE0 {
        Some("Vocalic Rr")
    } else if cp == 0x0AE1 {
        Some("Vocalic Ll")
    } else if cp == 0x0AE2 {
        Some("Sign Vocalic L")
    } else if cp == 0x0AE3 {
        Some("Sign Vocalic Ll")
    } else if cp == 0x0AE6 {
        Some("Digit Zero")
    } else if cp == 0x0AE7 {
        Some("Digit One")
    } else if cp == 0x0AE8 {
        Some("Digit Two")
    } else if cp == 0x0AE9 {
        Some("Digit Three")
    } else if cp == 0x0AEA {
        Some("Digit Four")
    } else if cp == 0x0AEB {
        Some("Digit Five")
    } else if cp == 0x0AEC {
        Some("Digit Six")
    } else if cp == 0x0AED {
        Some("Digit Seven")
    } else if cp == 0x0AEE {
        Some("Digit Eight")
    } else if cp == 0x0AEF {
        Some("Digit Nine")
    } else if cp == 0x0AF0 {
        Some("Abbreviation")
    } else if cp == 0x0AF1 {
        Some("Rupee Sign")
    } else if cp == 0x0AF9 {
        Some("Zha")
    } else if cp == 0x0AFA {
        Some("Sukun")
    } else if cp == 0x0AFB {
        Some("Shadda")
    } else if cp == 0x0AFC {
        Some("Maddah")
    } else if cp == 0x0AFD {
        Some("Three-Dot Nukta Above")
    } else if cp == 0x0AFE {
        Some("Circle Nukta Above")
    } else if cp == 0x0AFF {
        Some("Two-Circle Nukta Above")
    } else {
        None
    }
}

fn gujarati_block_name(cp: u32) -> (r: Option<&'static str>)
    ensures
        r == gujarati_name(cp),
{
    match cp {
        0x0A81 => Some("Candrabindu"),
        0x0A82 => Some("Anusvara"),
        0x0A83 => Some("Visarga"),
        0x0A85 => Some("A"),
        0x0A86 => Some("Aa"),
        0x0A87 => Some("I"),
        0x0A88 => Some("Ii"),
        0x0A89 => Some("U"),
        0x0A8A => Some("Uu"),
        0x0A8B => Some("Vocalic R"),
        0x0A8C => Some("Vocalic L"),
        0x0A8D => Some("Candra E"),
        0x0A8F => Some("E"),
        0x0A90 => Some("Ai"),
        0x0A91 => Some("Candra O"),
        0x0A93 => Some("O"),
        0x0A94 => Some("Au"),
        0x0A95 => Some("Ka"),
        0x0A96 => Some("Kha"),
        0x0A97 => Some("Ga"),
        0x0A98 => Some("Gha"),
        0x0A99 => Some("Nga"),
        0x0A9A => Some("Ca"),
        0x0A9B => Some("Cha"),
        0x0A9C => Some("Ja"),
        0x0A9D => Some("Jha"),
        0x0A9E => Some("Nya"),
        0x0A9F => Some("Tta"),
        0x0AA0 => Some("Ttha"),
        0x0AA1 => Some("Dda"),
        0x0AA2 => Some("Ddha"),
        0x0AA3 => Some("Nna"),
        0x0AA4 => Some("Ta"),
        0x0AA5 => Some("Tha"),
        0x0AA6 => Some("Da"),
        0x0AA7 => Some("Dha"),
        0x0AA8 => Some("Na"),
        0x0AAA => Some("Pa"),
        0x0AAB => Some("Pha"),
        0x0AAC => Some("Ba"),
        0x0AAD => Some("Bha"),
        0x0AAE => Some("Ma"),
        0x0AAF => Some("Ya"),
        0x0AB0 => Some("Ra"),
        0x0AB2 => Some("La"),
        0x0AB3 => Some("Lla"),
        0x0AB5 => Some("Va"),
        0x0AB6 => Some("Sha"),
        0x0AB7 => Some("Ssa"),
        0x0AB8 => Some("Sa"),
        0x0AB9 => Some("Ha"),
        0x0ABC => Some("Nukta"),
        0x0ABD => Some("Avagraha"),
        0x0ABE => Some("Sign Aa"),
        0x0ABF => Some("Sign I"),
        0x0AC0 => Some("Sign Ii"),
        0x0AC1 => Some("Sign U"),
        0x0AC2 => Some("Sign Uu"),
        0x0AC3 => Some("Sign Vocalic R"),
        0x0AC4 => Some("Sign Vocalic Rr"),
        0x0AC5 => Some("Sign Candra E"),
        0x0AC7 => Some("Sign E"),
        0x0AC8 => Some("Sign Ai"),
        0x0AC9 => Some("Sign Candra O"),
        0x0ACB => Some("Sign O"),
        0x0ACC => Some("Sign Au"),
        0x0ACD => Some("Virama"),
        0x0AD0 => Some("Om"),
        0x0AE0 => Some("Vocalic Rr"),
        0x0AE1 => Some("Vocalic Ll"),
        0x0AE2 => Some("Sign Vocalic L"),
        0x0AE3 => Some("Sign Vocalic Ll"),
        0x0AE6 => Some("Digit Zero"),
        0x0AE7 => Some("Digit One"),
        0x0AE8 => Some("Digit Two"),
        0x0AE9 => Some("Digit Three"),
        0x0AEA => Some("Digit Four"),
        0x0AEB => Some("Digit Five"),
        0x0AEC => Some("Digit Six"),
        0x0AED => Some("Digit Seven"),
        0x0AEE => Some("Digit Eight"),
        0x0AEF => Some("Digit Nine"),
        0x0AF0 => Some("Abbreviation"),
        0x0AF1 => Some("Rupee Sign"),
        0x0AF9 => Some("Zha"),
        0x0AFA => Some("Sukun"),
        0x0AFB => Some("Shadda"),
        0x0AFC => Some("Maddah"),
        0x0AFD => Some("Three-Dot Nukta Above"),
        0x0AFE => Some("Circle Nukta Above"),
        0x0AFF => Some("Two-Circle Nukta Above"),
        _ => None,
    }
}

/// The names of the Oriya block, by code point.
pub open spec fn oriya_name(cp: u32) -> Option<&'static str> {
    if cp == 0x0B01 {
        Some("Candrabindu")
    } else if cp == 0x0B02 {
        Some("Anusvara")
    } else if cp == 0x0B03 {
        Some("Visarga")
    } else if cp == 0x0B05 {
        Some("A")
    } else if cp == 0x0B06 {
        Some("Aa")
    } else if cp == 0x0B07 {
        Some("I")
    } else if cp == 0x0B08 {
        Some("Ii")
    } else if cp == 0x0B09 {
        Some("U")
    } else if cp == 0x0B0A {
        Some("Uu")
    } else if cp == 0x0B0B {
        Some("Vocalic R")
    } else if cp == 0x0B0C {
        Some("Vocalic L")
    } else if cp == 0x0B0F {
        Some("E")
    } else if cp == 0x0B10 {
        Some("Ai")
    } else if cp == 0x0B13 {
        Some("O")
    } else if cp == 0x0B14 {
        Some("Au")
    } else if cp == 0x0B15 {
        Some("Ka")
    } else if cp == 0x0B16 {
        Some("Kha")
    } else if cp == 0x0B17 {
        Some("Ga")
    } else if cp == 0x0B18 {
        Some("Gha")
    } else if cp == 0x0B19 {
        Some("Nga")
    } else if cp == 0x0B1A {
        Some("Ca")
    } else if cp == 0x0B1B {
        Some("Cha")
    } else if cp == 0x0B1C {
        Some("Ja")
    } else if cp == 0x0B1D {
        Some("Jha")
    } else if cp == 0x0B1E {
        Some("Nya")
    } else if cp == 0x0B1F {
        Some("Tta")
    } else if cp == 0x0B20 {
        Some("Ttha")
    } else if cp == 0x0B21 {
        Some("Dda")
    } else if cp == 0x0B22 {
        Some("Ddha")
    } else if cp == 0x0B23 {
        Some("Nna")
    } else if cp == 0x0B24 {
        Some("Ta")
    } else if cp == 0x0B25 {
        Some("Tha")
    } else if cp == 0x0B26 {
        Some("Da")
    } else if cp == 0x0B27 {
        Some("Dha")
    } else if cp == 0x0B28 {
        Some("Na")
    } else if cp == 0x0B2A {
        Some("Pa")
    } else if cp == 0x0B2B {
        Some("Pha")
    } else if cp == 0x0B2C {
        Some("Ba")
    } else if cp == 0x0B2D {
        Some("Bha")
    } else if cp == 0x0B2E {
        Some("Ma")
    } else if cp == 0x0B2F {
        Some("Ya")
    } else if cp == 0x0B30 {
        Some("Ra")
    } else if cp == 0x0B32 {
        Some("La")
    } else if cp == 0x0B33 {
        Some("Lla")
    } else if cp == 0x0B35 {
        Some("Va")
    } else if cp == 0x0B36 {
        Some("Sha")
    } else if cp == 0x0B37 {
        Some("Ssa")
    } else if cp == 0x0B38 {
        Some("Sa")
    } else if cp == 0x0B39 {
        Some("Ha")
    } else if cp == 0x0B3C {
        Some("Nukta")
    } else if cp == 0x0B3D {
        Some("Avagraha")
    } else if cp == 0x0B3E {
        Some("Sign Aa")
    } else if cp == 0x0B3F {
        Some("Sign I")
    } else if cp == 0x0B40 {
        Some("Sign Ii")
    } else if cp == 0x0B41 {
        Some("Sign U")
    } else if cp == 0x0B42 {
        Some("Sign Uu")
    } else if cp == 0x0B43 {
        Some("Sign Vocalic R")
    } else if cp == 0x0B44 {
        Some("Sign Vocalic Rr")
    } else if cp == 0x0B47 {
        Some("Sign E")
    } else if cp == 0x0B48 {
        Some("Sign Ai")
    } else if cp == 0x0B4B {
        Some("Sign O")
    } else if cp == 0x0B4C {
        Some("Sign Au")
    } else if cp == 0x0B4D {
        Some("Virama")
    } else if cp == 0x0B56 {
        Some("Ai Length Mark")
    } else if cp == 0x0B57 {
        Some("Au Length Mark")
    } else if cp == 0x0B5C {
        Some("Rra")
    } else if cp == 0x0B5D {
        Some("Rha")
    } else if cp == 0x0B5F {
        Some("Yya")
    } else if cp == 0x0B60 {
        Some("Vocalic Rr")
    } else if cp == 0x0B61 {
        Some("Vocalic Ll")
    } else if cp == 0x0B62 {
        Some("Sign Vocalic L")
    } else if cp == 0x0B63 {
        Some("Sign Vocalic Ll")
    } else if cp == 0x0B66 {
        Some("Digit Zero")
    } else if cp == 0x0B67 {
        Some("Digit One")
    } else if cp == 0x0B68 {
        Some("Digit Two")
    } else if cp == 0x0B69 {
        Some("Digit Three")
    } else if cp == 0x0B6A {
        Some("Digit Four")
    } else if cp == 0x0B6B {
        Some("Digit Five")
    } else if cp == 0x0B6C {
        Some("Digit Six")
    } else if cp == 0x0B6D {
        Some("Digit Seven")
    } else if cp == 0x0B6E {
        Some("Digit Eight")
    } else if cp == 0x0B6F {
        Some("Digit Nine")
    } else if cp == 0x0B70 {
        Some("Isshar")
    } else if cp == 0x0B71 {
        Some("Wa")
    } else if cp == 0x0B72 {
        Some("Fraction 1/4")
    } else if cp == 0x0B73 {
        Some("Fraction 1/2")
    } else if cp == 0x0B74 {
        Some("Fraction 3/4")
    } else if cp == 0x0B75 {
        Some("Fraction 1/16")
    } else if cp == 0x0B76 {
        Some("Fraction 1/8")
    } else if cp == 0x0B77 {
        Some("Fraction 3/16")
    } else {
        None
    }
}

fn oriya_block_name(cp: u32) -> (r: Option<&'static str>)
    ensures
        r == oriya_name(cp),
{
    match cp {
        0x0B01 => Some("Candrabindu"),
        0x0B02 => Some("Anusvara"),
        0x0B03 => Some("Visarga"),
        0x0B05 => Some("A"),
        0x0B06 => Some("Aa"),
        0x0B07 => Some("I"),
        0x0B08 => Some("Ii"),
        0x0B09 => Some("U"),
        0x0B0A => Some("Uu"),
        0x0B0B => Some("Vocalic R"),
        0x0B0C => Some("Vocalic L"),
        0x0B0F => Some("E"),
        0x0B10 => Some("Ai"),
        0x0B13 => Some("O"),
        0x0B14 => Some("Au"),
        0x0B15 => Some("Ka"),
        0x0B16 => Some("Kha"),
        0x0B17 => Some("Ga"),
        0x0B18 => Some("Gha"),
        0x0B19 => Some("Nga"),
        0x0B1A => Some("Ca"),
        0x0B1B => Some("Cha"),
        0x0B1C => Some("Ja"),
        0x0B1D => Some("Jha"),
        0x0B1E => Some("Nya"),
        0x0B1F => Some("Tta"),
        0x0B20 => Some("Ttha"),
        0x0B21 => Some("Dda"),
        0x0B22 => Some("Ddha"),
        0x0B23 => Some("Nna"),
        0x0B24 => Some("Ta"),
        0x0B25 => Some("Tha"),
        0x0B26 => Some("Da"),
        0x0B27 => Some("Dha"),
        0x0B28 => Some("Na"),
        0x0B2A => Some("Pa"),
        0x0B2B => Some("Pha"),
        0x0B2C => Some("Ba"),
        0x0B2D => Some("Bha"),
        0x0B2E => Some("Ma"),
        0x0B2F => Some("Ya"),
        0x0B30 => Some("Ra"),
        0x0B32 => Some("La"),
        0x0B33 => Some("Lla"),
        0x0B35 => Some("Va"),
        0x0B36 => Some("Sha"),
        0x0B37 => Some("Ssa"),
        0x0B38 => Some("Sa"),
        0x0B39 => Some("Ha"),
        0x0B3C => Some("Nukta"),
        0x0B3D => Some("Avagraha"),
        0x0B3E => Some("Sign Aa"),
        0x0B3F => Some("Sign I"),
        0x0B40 => Some("Sign Ii"),
        0x0B41 => Some("Sign U"),
        0x0B42 => Some("Sign Uu"),
        0x0B43 => Some("Sign Vocalic R"),
        0x0B44 => Some("Sign Vocalic Rr"),
        0x0B47 => Some("Sign E"),
        0x0B48 => Some("Sign Ai"),
        0x0B4B => Some("Sign O"),
        0x0B4C => Some("Sign Au"),
        0x0B4D => Some("Virama"),
        0x0B56 => Some("Ai Length Mark"),
        0x0B57 => Some("Au Length Mark"),
        0x0B5C => Some("Rra"),
        0x0B5D => Some("Rha"),
        0x0B5F => Some("Yya"),
        0x0B60 => Some("Vocalic Rr"),
        0x0B61 => Some("Vocalic Ll"),
        0x0B62 => Some("Sign Vocalic L"),
        0x0B63 => Some("Sign Vocalic Ll"),
        0x0B66 => Some("Digit Zero"),
        0x0B67 => Some("Digit One"),
        0x0B68 => Some("Digit Two"),
        0x0B69 => Some("Digit Three"),
        0x0B6A => Some("Digit Four"),
        0x0B6B => Some("Digit Five"),
        0x0B6C => Some("Digit Six"),
        0x0B6D => Some("Digit Seven"),
        0x0B6E => Some("Digit Eight"),
        0x0B6F => Some("Digit Nine"),
        0x0B70 => Some("Isshar"),
        0x0B71 => Some("Wa"),
        0x0B72 => Some("Fraction 1/4"),
        0x0B73 => Some("Fraction 1/2"),
        0x0B74 => Some("Fraction 3/4"),
        0x0B75 => Some("Fraction 1/16"),
        0x0B76 => Some("Fraction 1/8"),
        0x0B77 => Some("Fraction 3/16"),
        _ => None,
    }
}

/// The names of the Tamil block, by code point.
pub open spec fn tamil_name(cp: u32) -> Option<&'static str> {
    if cp == 0x0B82 {
        Some("Anusvara")
    } else if cp == 0x0B83 {
        Some("Visarga")
    } else if cp == 0x0B85 {
        Some("A")
    } else if cp == 0x0B86 {
        Some("Aa")
    } else if cp == 0x0B87 {
        Some("I")
    } else if cp == 0x0B88 {
        Some("Ii")
    } else if cp == 0x0B89 {
        Some("U")
    } else if cp == 0x0B8A {
        Some("Uu")
    } else if cp == 0x0B8E {
        Some("E")
    } else if cp == 0x0B8F {
        Some("Ee")
    } else if cp == 0x0B90 {
        Some("Ai")
    } else if cp == 0x0B92 {
        Some("O")
    } else if cp == 0x0B93 {
        Some("Oo")
    } else if cp == 0x0B94 {
        Some("Au")
    } else if cp == 0x0B95 {
        Some("Ka")
    } else if cp == 0x0B99 {
        Some("Nga")
    } else if cp == 0x0B9A {
        Some("Ca")
    } else if cp == 0x0B9C {
        Some("Ja")
    } else if cp == 0x0B9E {
        Some("Nya")
    } else if cp == 0x0B9F {
        Some("Tta")
    } else if cp == 0x0BA3 {
        Some("Nna")
    } else if cp == 0x0BA4 {
        Some("Ta")
    } else if cp == 0x0BA8 {
        Some("Na")
    } else if cp == 0x0BA9 {
        Some("Nnna")
    } else if cp == 0x0BAA {
        Some("Pa")
    } else if cp == 0x0BAE {
        Some("Ma")
    } else if cp == 0x0BAF {
        Some("Ya")
    } else if cp == 0x0BB0 {
        Some("Ra")
    } else if cp == 0x0BB1 {
        Some("Rra")
    } else if cp == 0x0BB2 {
        Some("La")
    } else if cp == 0x0BB3 {
        Some("Lla")
    } else if cp == 0x0BB4 {
        Some("Llla")
    } else if cp == 0x0BB5 {
        Some("Va")
    } else if cp == 0x0BB6 {
        Some("Sha")
    } else if cp == 0x0BB7 {
        Some("Ssa")
    } else if cp == 0x0BB8 {
        Some("Sa")
    } else if cp == 0x0BB9 {
        Some("Ha")
    } else if cp == 0x0BBE {
        Some("Sign Aa")
    } else if cp == 0x0BBF {
        Some("Sign I")
    } else if cp == 0x0BC0 {
        Some("Sign Ii")
    } else if cp == 0x0BC1 {
        Some("Sign U")
    } else if cp == 0x0BC2 {
        Some("Sign Uu")
    } else if cp == 0x0BC6 {
        Some("Sign E")
    } else if cp == 0x0BC7 {
        Some("Sign Ee")
    } else if cp == 0x0BC8 {
        Some("Sign Ai")
    } else if cp == 0x0BCA {
        Some("Sign O")
    } else if cp == 0x0BCB {
        Some("Sign Oo")
    } else if cp == 0x0BCC {
        Some("Sign Au")
    } else if cp == 0x0BCD {
        Some("Virama")
    } else if cp == 0x0BD0 {
        Some("Om")
    } else if cp == 0x0BD7 {
        Some("Au Length Mark")
    } else if cp == 0x0BE6 {
        Some("Digit Zero")
    } else if cp == 0x0BE7 {
        Some("Digit One")
    } else if cp == 0x0BE8 {
        Some("Digit Two")
    } else if cp == 0x0BE9 {
        Some("Digit Three")
    } else if cp == 0x0BEA {
        Some("Digit Four")
    } else if cp == 0x0BEB {
        Some("Digit Five")
    } else if cp == 0x0BEC {
        Some("Digit Six")
    } else if cp == 0x0BED {
        Some("Digit Seven")
    } else if cp == 0x0BEE {
        Some("Digit Eight")
    } else if cp == 0x0BEF {
        Some("Digit Nine")
    } else if cp == 0x0BF0 {
        Some("Number Ten")
    } else if cp == 0x0BF1 {
        Some("Number One Hundred")
    } else if cp == 0x0BF2 {
        Some("Number One Thousand")
    } else if cp == 0x0BF3 {
        Some("Day Sign")
    } else if cp == 0x0BF4 {
        Some("Month Sign")
    } else if cp == 0x0BF5 {
        Some("Year Sign")
    } else if cp == 0x0BF6 {
        Some("Debit Sign")
    } else if cp == 0x0BF7 {
        Some("Credit Sign")
    } else if cp == 0x0BF8 {
        Some("As Above Sign")
    } else if cp == 0x0BF9 {
        Some("Tamil Rupee Sign")
    } else if cp == 0x0BFA {
        Some("Number Sign")
    } else {
        None
    }
}

fn tamil_block_name(cp: u32) -> (r: Option<&'static str>)
    ensures
        r == tamil_name(cp),
{
    match cp {
        0x0B82 => Some("Anusvara"),
        0x0B83 => Some("Visarga"),
        0x0B85 => Some("A"),
        0x0B86 => Some("Aa"),
        0x0B87 => Some("I"),
        0x0B88 => Some("Ii"),
        0x0B89 => Some("U"),
        0x0B8A => Some("Uu"),
        0x0B8E => Some("E"),
        0x0B8F => Some("Ee"),
        0x0B90 => Some("Ai"),
        0x0B92 => Some("O"),
        0x0B93 => Some("Oo"),
        0x0B94 => Some("Au"),
        0x0B95 => Some("Ka"),
        0x0B99 => Some("Nga"),
        0x0B9A => Some("Ca"),
        0x0B9C => Some("Ja"),
        0x0B9E => Some("Nya"),
        0x0B9F => Some("Tta"),
        0x0BA3 => Some("Nna"),
        0x0BA4 => Some("Ta"),
        0x0BA8 => Some("Na"),
        0x0BA9 => Some("Nnna"),
        0x0BAA => Some("Pa"),
        0x0BAE => Some("Ma"),
        0x0BAF => Some("Ya"),
        0x0BB0 => Some("Ra"),
        0x0BB1 => Some("Rra"),
        0x0BB2 => Some("La"),
        0x0BB3 => Some("Lla"),
        0x0BB4 => Some("Llla"),
        0x0BB5 => Some("Va"),
        0x0BB6 => Some("Sha"),
        0x0BB7 => Some("Ssa"),
        0x0BB8 => Some("Sa"),
        0x0BB9 => Some("Ha"),
        0x0BBE => Some("Sign Aa"),
        0x0BBF => Some("Sign I"),
        0x0BC0 => Some("Sign Ii"),
        0x0BC1 => Some("Sign U"),
        0x0BC2 => Some("Sign Uu"),
        0x0BC6 => Some("Sign E"),
        0x0BC7 => Some("Sign Ee"),
        0x0BC8 => Some("Sign Ai"),
        0x0BCA => Some("Sign O"),
        0x0BCB => Some("Sign Oo"),
        0x0BCC => Some("Sign Au"),
        0x0BCD => Some("Virama"),
        0x0BD0 => Some("Om"),
        0x0BD7 => Some("Au Length Mark"),
        0x0BE6 => Some("Digit Zero"),
        0x0BE7 => Some("Digit One"),
        0x0BE8 => Some("Digit Two"),
        0x0BE9 => Some("Digit Three"),
        0x0BEA => Some("Digit Four"),
        0x0BEB => Some("Digit Five"),
        0x0BEC => Some("Digit Six"),
        0x0BED => Some("Digit Seven"),
        0x0BEE => Some("Digit Eight"),
        0x0BEF => Some("Digit Nine"),
        0x0BF0 => Some("Number Ten"),
        0x0BF1 => Some("Number One Hundred"),
        0x0BF2 => Some("Number One Thousand"),
        0x0BF3 => Some("Day Sign"),
        0x0BF4 => Some("Month Sign"),
        0x0BF5 => Some("Year Sign"),
        0x0BF6 => Some("Debit Sign"),
        0x0BF7 => Some("Credit Sign"),
        0x0BF8 => Some("As Above Sign"),
        0x0BF9 => Some("Tamil Rupee Sign"),
        0x0BFA => Some("Number Sign"),
        _ => None,
    }
}

/// The names of the Telugu block, by code point.
pub open spec fn telugu_name(cp: u32) -> Option<&'static str> {
    if cp == 0x0C00 {
        Some("Combining Candrabindu Above")
    } else if cp == 0x0C01 {
        Some("Candrabindu")
    } else if cp == 0x0C02 {
        Some("Anusvara")
    } else if cp == 0x0C03 {
        Some("Visarga")
    } else if cp == 0x0C04 {
        Some("Combining Anusvara Above")
    } else if cp == 0x0C05 {
        Some("A")
    } else if cp == 0x0C06 {
        Some("Aa")
    } else if cp == 0x0C07 {
        Some("I")
    } else if cp == 0x0C08 {
        Some("Ii")
    } else if cp == 0x0C09 {
        Some("U")
    } else if cp == 0x0C0A {
        Some("Uu")
    } else if cp == 0x0C0B {
        Some("Vocalic R")
    } else if cp == 0x0C0C {
        Some("Vocalic L")
    } else if cp == 0x0C0E {
        Some("E")
    } else if cp == 0x0C0F {
        Some("Ee")
    } else if cp == 0x0C10 {
        Some("Ai")
    } else if cp == 0x0C12 {
        Some("O")
    } else if cp == 0x0C13 {
        Some("Oo")
    } else if cp == 0x0C14 {
        Some("Au")
    } else if cp == 0x0C15 {
        Some("Ka")
    } else if cp == 0x0C16 {
        Some("Kha")
    } else if cp == 0x0C17 {
        Some("Ga")
    } else if cp == 0x0C18 {
        Some("Gha")
    } else if cp == 0x0C19 {
        Some("Nga")
    } else if cp == 0x0C1A {
        Some("Ca")
    } else if cp == 0x0C1B {
        Some("Cha")
    } else if cp == 0x0C1C {
        Some("Ja")
    } else if cp == 0x0C1D {
        Some("Jha")
    } else if cp == 0x0C1E {
        Some("Nya")
    } else if cp == 0x0C1F {
        Some("Tta")
    } else if cp == 0x0C20 {
        Some("Ttha")
    } else if cp == 0x0C21 {
        Some("Dda")
    } else if cp == 0x0C22 {
        Some("Ddha")
    } else if cp == 0x0C23 {
        Some("Nna")
    } else if cp == 0x0C24 {
        Some("Ta")
    } else if cp == 0x0C25 {
        Some("Tha")
    } else if cp == 0x0C26 {
        Some("Da")
    } else if cp == 0x0C27 {
        Some("Dha")
    } else if cp == 0x0C28 {
        Some("Na")
    } else if cp == 0x0C2A {
        Some("Pa")
    } else if cp == 0x0C2B {
        Some("Pha")
    } else if cp == 0x0C2C {
        Some("Ba")
    } else if cp == 0x0C2D {
        Some("Bha")
    } else if cp == 0x0C2E {
        Some("Ma")
    } else if cp == 0x0C2F {
        Some("Ya")
    } else if cp == 0x0C30 {
        Some("Ra")
    } else if cp == 0x0C31 {
        Some("Rra")
    } else if cp == 0x0C32 {
        Some("La")
    } else if cp == 0x0C33 {
        Some("Lla")
    } else if cp == 0x0C34 {
        Some("Llla")
    } else if cp == 0x0C35 {
        Some("Va")
    } else if cp == 0x0C36 {
        Some("Sha")
    } else if cp == 0x0C37 {
        Some("Ssa")
    } else if cp == 0x0C38 {
        Some("Sa")
    } else if cp == 0x0C39 {
        Some("Ha")
    } else if cp == 0x0C3D {
        Some("Avagraha")
    } else if cp == 0x0C3E {
        Some("Sign Aa")
    } else if cp == 0x0C3F {
        Some("Sign I")
    } else if cp == 0x0C40 {
        Some("Sign Ii")
    } else if cp == 0x0C41 {
        Some("Sign U")
    } else if cp == 0x0C42 {
        Some("Sign Uu")
    } else if cp == 0x0C43 {
        Some("Sign Vocalic R")
    } else if cp == 0x0C44 {
        Some("Sign Vocalic Rr")
    } else if cp == 0x0C46 {
        Some("Sign E")
    } else if cp == 0x0C47 {
        Some("Sign Ee")
    } else if cp == 0x0C48 {
        Some("Sign Ai")
    } else if cp == 0x0C4A {
        Some("Sign O")
    } else if cp == 0x0C4B {
        Some("Sign Oo")
    } else if cp == 0x0C4C {
        Some("Sign Au")
    } else if cp == 0x0C4D {
        Some("Virama")
    } else if cp == 0x0C55 {
        Some("Length Mark")
    } else if cp == 0x0C56 {
        Some("Ai Length Mark")
    } else if cp == 0x0C58 {
        Some("Tsa")
    } else if cp == 0x0C59 {
        Some("Dza")
    } else if cp == 0x0C5A {
        Some("Rrra")
    } else if cp == 0x0C60 {
        Some("Vocalic Rr")
    } else if cp == 0x0C61 {
        Some("Vocalic Ll")
    } else if cp == 0x0C62 {
        Some("Sign Vocalic L")
    } else if cp == 0x0C63 {
        Some("Sign Vocalic Ll")
    } else if cp == 0x0C66 {
        Some("Digit Zero")
    } else if cp == 0x0C67 {
        Some("Digit One")
    } else if cp == 0x0C68 {
        Some("Digit Two")
    } else if cp == 0x0C69 {
        Some("Digit Three")
    } else if cp == 0x0C6A {
        Some("Digit Four")
    } else if cp == 0x0C6B {
        Some("Digit Five")
    } else if cp == 0x0C6C {
        Some("Digit Six")
    } else if cp == 0x0C6D {
        Some("Digit Seven")
    } else if cp == 0x0C6E {
        Some("Digit Eight")
    } else if cp == 0x0C6F {
        Some("Digit Nine")
    } else if cp == 0x0C78 {
        Some("Fraction Zero Odd P")
    } else if cp == 0x0C79 {
        Some("Fraction One Odd P")
    } else if cp == 0x0C7A {
        Some("Fraction Two Odd P")
    } else if cp == 0x0C7B {
        Some("Fraction Three Odd P")
    } else if cp == 0x0C7C {
        Some("Fraction One Even P")
    } else if cp == 0x0C7D {
        Some("Fraction Two Even P")
    } else if cp == 0x0C7E {
        Some("Fraction Three Even P")
    } else if cp == 0x0C7F {
        Some("Tuumu")
    } else {
        None
    }
}

fn telugu_block_name(cp: u32) -> (r: Option<&'static str>)
    ensures
        r == telugu_name(cp),
{
    match cp {
        0x0C00 => Some("Combining Candrabindu Above"),
        0x0C01 => Some("Candrabindu"),
        0x0C02 => Some("Anusvara"),
        0x0C03 => Some("Visarga"),
        0x0C04 => Some("Combining Anusvara Above"),
        0x0C05 => Some("A"),
        0x0C06 => Some("Aa"),
        0x0C07 => Some("I"),
        0x0C08 => Some("Ii"),
        0x0C09 => Some("U"),
        0x0C0A => Some("Uu"),
        0x0C0B => Some("Vocalic R"),
        0x0C0C => Some("Vocalic L"),
        0x0C0E => Some("E"),
        0x0C0F => Some("Ee"),
        0x0C10 => Some("Ai"),
        0x0C12 => Some("O"),
        0x0C13 => Some("Oo"),
        0x0C14 => Some("Au"),
        0x0C15 => Some("Ka"),
        0x0C16 => Some("Kha"),
        0x0C17 => Some("Ga"),
        0x0C18 => Some("Gha"),
        0x0C19 => Some("Nga"),
        0x0C1A => Some("Ca"),
        0x0C1B => Some("Cha"),
        0x0C1C => Some("Ja"),
        0x0C1D => Some("Jha"),
        0x0C1E => Some("Nya"),
        0x0C1F => Some("Tta"),
        0x0C20 => Some("Ttha"),
        0x0C21 => Some("Dda"),
        0x0C22 => Some("Ddha"),
        0x0C23 => Some("Nna"),
        0x0C24 => Some("Ta"),
        0x0C25 => Some("Tha"),
        0x0C26 => Some("Da"),
        0x0C27 => Some("Dha"),
        0x0C28 => Some("Na"),
        0x0C2A => Some("Pa"),
        0x0C2B => Some("Pha"),
        0x0C2C => Some("Ba"),
        0x0C2D => Some("Bha"),
        0x0C2E => Some("Ma"),
        0x0C2F => Some("Ya"),
        0x0C30 => Some("Ra"),
        0x0C31 => Some("Rra"),
        0x0C32 => Some("La"),
        0x0C33 => Some("Lla"),
        0x0C34 => Some("Llla"),
        0x0C35 => Some("Va"),
        0x0C36 => Some("Sha"),
        0x0C37 => Some("Ssa"),
        0x0C38 => Some("Sa"),
        0x0C39 => Some("Ha"),
        0x0C3D => Some("Avagraha"),
        0x0C3E => Some("Sign Aa"),
        0x0C3F => Some("Sign I"),
        0x0C40 => Some("Sign Ii"),
        0x0C41 => Some("Sign U"),
        0x0C42 => Some("Sign Uu"),
        0x0C43 => Some("Sign Vocalic R"),
        0x0C44 => Some("Sign Vocalic Rr"),
        0x0C46 => Some("Sign E"),
        0x0C47 => Some("Sign Ee"),
        0x0C48 => Some("Sign Ai"),
        0x0C4A => Some("Sign O"),
        0x0C4B => Some("Sign Oo"),
        0x0C4C => Some("Sign Au"),
        0x0C4D => Some("Virama"),
        0x0C55 => Some("Length Mark"),
        0x0C56 => Some("Ai Length Mark"),
        0x0C58 => Some("Tsa"),
        0x0C59 => Some("Dza"),
        0x0C5A => Some("Rrra"),
        0x0C60 => Some("Vocalic Rr"),
        0x0C61 => Some("Vocalic Ll"),
        0x0C62 => Some("Sign Vocalic L"),
        0x0C63 => Some("Sign Vocalic Ll"),
        0x0C66 => Some("Digit Zero"),
        0x0C67 => Some("Digit One"),
        0x0C68 => Some("Digit Two"),
        0x0C69 => Some("Digit Three"),
        0x0C6A => Some("Digit Four"),
        0x0C6B => Some("Digit Five"),
        0x0C6C => Some("Digit Six"),
        0x0C6D => Some("Digit Seven"),
        0x0C6E => Some("Digit Eight"),
        0x0C6F => Some("Digit Nine"),
        0x0C78 => Some("Fraction Zero Odd P"),
        0x0C79 => Some("Fraction One Odd P"),
        0x0C7A => Some("Fraction Two Odd P"),
        0x0C7B => Some("Fraction Three Odd P"),
        0x0C7C => Some("Fraction One Even P"),
        0x0C7D => Some("Fraction Two Even P"),
        0x0C7E => Some("Fraction Three Even P"),
        0x0C7F => Some("Tuumu"),
        _ => None,
    }
}

/// The names of the Kannada block, by code point.
pub open spec fn kannada_name(cp: u32) -> Option<&'static str> {
    if cp == 0x0C80 {
        Some("Spacing Candrabindu")
    } else if cp == 0x0C81 {
        Some("Candrabindu")
    } else if cp == 0x0C82 {
        Some("Anusvara")
    } else if cp == 0x0C83 {
        Some("Visarga")
    } else if cp == 0x0C84 {
        Some("Siddham")
    } else if cp == 0x0C85 {
        Some("A")
    } else if cp == 0x0C86 {
        Some("Aa")
    } else if cp == 0x0C87 {
        Some("I")
    } else if cp == 0x0C88 {
        Some("Ii")
    } else if cp == 0x0C89 {
        Some("U")
    } else if cp == 0x0C8A {
        Some("Uu")
    } else if cp == 0x0C8B {
        Some("Vocalic R")
    } else if cp == 0x0C8C {
        Some("Vocalic L")
    } else if cp == 0x0C8E {
        Some("E")
    } else if cp == 0x0C8F {
        Some("Ee")
    } else if cp == 0x0C90 {
        Some("Ai")
    } else if cp == 0x0C92 {
        Some("O")
    } else if cp == 0x0C93 {
        Some("Oo")
    } else if cp == 0x0C94 {
        Some("Au")
    } else if cp == 0x0C95 {
        Some("Ka")
    } else if cp == 0x0C96 {
        Some("Kha")
    } else if cp == 0x0C97 {
        Some("Ga")
    } else if cp == 0x0C98 {
        Some("Gha")
    } else if cp == 0x0C99 {
        Some("Nga")
    } else if cp == 0x0C9A {
        Some("Ca")
    } else if cp == 0x0C9B {
        Some("Cha")
    } else if cp == 0x0C9C {
        Some("Ja")
    } else if cp == 0x0C9D {
        Some("Jha")
    } else if cp == 0x0C9E {
        Some("Nya")
    } else if cp == 0x0C9F {
        Some("Tta")
    } else if cp == 0x0CA0 {
        Some("Ttha")
    } else if cp == 0x0CA1 {
        Some("Dda")
    } else if cp == 0x0CA2 {
        Some("Ddha")
    } else if cp == 0x0CA3 {
        Some("Nna")
    } else if cp == 0x0CA4 {
        Some("Ta")
    } else if cp == 0x0CA5 {
        Some("Tha")
    } else if cp == 0x0CA6 {
        Some("Da")
    } else if cp == 0x0CA7 {
        Some("Dha")
    } else if cp == 0x0CA8 {
        Some("Na")
    } else if cp == 0x0CAA {
        Some("Pa")
    } else if cp == 0x0CAB {
        Some("Pha")
    } else if cp == 0x0CAC {
        Some("Ba")
    } else if cp == 0x0CAD {
        Some("Bha")
    } else if cp == 0x0CAE {
        Some("Ma")
    } else if cp == 0x0CAF {
        Some("Ya")
    } else if cp == 0x0CB0 {
        Some("Ra")
    } else if cp == 0x0CB1 {
        Some("Rra")
    } else if cp == 0x0CB2 {
        Some("La")
    } else if cp == 0x0CB3 {
        Some("Lla")
    } else if cp == 0x0CB5 {
        Some("Va")
    } else if cp == 0x0CB6 {
        Some("Sha")
    } else if cp == 0x0CB7 {
        Some("Ssa")
    } else if cp == 0x0CB8 {
        Some("Sa")
    } else if cp == 0x0CB9 {
        Some("Ha")
    } else if cp == 0x0CBC {
        Some("Nukta")
    } else if cp == 0x0CBD {
        Some("Avagraha")
    } else if cp == 0x0CBE {
        Some("Sign Aa")
    } else if cp == 0x0CBF {
        Some("Sign I")
    } else if cp == 0x0CC0 {
        Some("Sign Ii")
    } else if cp == 0x0CC1 {
        Some("Sign U")
    } else if cp == 0x0CC2 {
        Some("Sign Uu")
    } else if cp == 0x0CC3 {
        Some("Sign Vocalic R")
    } else if cp == 0x0CC4 {
        Some("Sign Vocalic Rr")
    } else if cp == 0x0CC6 {
        Some("Sign E")
    } else if cp == 0x0CC7 {
        Some("Sign Ee")
    } else if cp == 0x0CC8 {
        Some("Sign Ai")
    } else if cp == 0x0CCA {
        Some("Sign O")
    } else if cp == 0x0CCB {
        Some("Sign Oo")
    } else if cp == 0x0CCC {
        Some("Sign Au")
    } else if cp == 0x0CCD {
        Some("Virama")
    } else if cp == 0x0CD5 {
        Some("Length Mark")
    } else if cp == 0x0CD6 {
        Some("Ai Length Mark")
    } else if cp == 0x0CDE {
        Some("Fa")
    } else if cp == 0x0CE0 {
        Some("Vocalic Rr")
    } else if cp == 0x0CE1 {
        Some("Vocalic Ll")
    } else if cp == 0x0CE2 {
        Some("Sign Vocalic L")
    } else if cp == 0x0CE3 {
        Some("Sign Vocalic Ll")
    } else if cp == 0x0CE6 {
        Some("Digit Zero")
    } else if cp == 0x0CE7 {
        Some("Digit One")
    } else if cp == 0x0CE8 {
        Some("Digit Two")
    } else if cp == 0x0CE9 {
        Some("Digit Three")
    } else if cp == 0x0CEA {
        Some("Digit Four")
    } else if cp == 0x0CEB {
        Some("Digit Five")
    } else if cp == 0x0CEC {
        Some("Digit Six")
    } else if cp == 0x0CED {
        Some("Digit Seven")
    } else if cp == 0x0CEE {
        Some("Digit Eight")
    } else if cp == 0x0CEF {
        Some("Digit Nine")
    } else if cp == 0x0CF1 {
        Some("Jihvamuliya")
    } else if cp == 0x0CF2 {
        Some("Upadhmaniya")
    } else {
        None
    }
}

fn kannada_block_name(cp: u32) -> (r: Option<&'static str>)
    ensures
        r == kannada_name(cp),
{
    match cp {
        0x0C80 => Some("Spacing Candrabindu"),
        0x0C81 => Some("Candrabindu"),
        0x0C82 => Some("Anusvara"),
        0x0C83 => Some("Visarga"),
        0x0C84 => Some("Siddham"),
        0x0C85 => Some("A"),
        0x0C86 => Some("Aa"),
        0x0C87 => Some("I"),
        0x0C88 => Some("Ii"),
        0x0C89 => Some("U"),
        0x0C8A => Some("Uu"),
        0x0C8B => Some("Vocalic R"),
        0x0C8C => Some("Vocalic L"),
        0x0C8E => Some("E"),
        0x0C8F => Some("Ee"),
        0x0C90 => Some("Ai"),
        0x0C92 => Some("O"),
        0x0C93 => Some("Oo"),
        0x0C94 => Some("Au"),
        0x0C95 => Some("Ka"),
        0x0C96 => Some("Kha"),
        0x0C97 => Some("Ga"),
        0x0C98 => Some("Gha"),
        0x0C99 => Some("Nga"),
        0x0C9A => Some("Ca"),
        0x0C9B => Some("Cha"),
        0x0C9C => Some("Ja"),
        0x0C9D => Some("Jha"),
        0x0C9E => Some("Nya"),
        0x0C9F => Some("Tta"),
        0x0CA0 => Some("Ttha"),
        0x0CA1 => Some("Dda"),
        0x0CA2 => Some("Ddha"),
        0x0CA3 => Some("Nna"),
        0x0CA4 => Some("Ta"),
        0x0CA5 => Some("Tha"),
        0x0CA6 => Some("Da"),
        0x0CA7 => Some("Dha"),
        0x0CA8 => Some("Na"),
        0x0CAA => Some("Pa"),
        0x0CAB => Some("Pha"),
        0x0CAC => Some("Ba"),
        0x0CAD => Some("Bha"),
        0x0CAE => Some("Ma"),
        0x0CAF => Some("Ya"),
        0x0CB0 => Some("Ra"),
        0x0CB1 => Some("Rra"),
        0x0CB2 => Some("La"),
        0x0CB3 => Some("Lla"),
        0x0CB5 => Some("Va"),
        0x0CB6 => Some("Sha"),
        0x0CB7 => Some("Ssa"),
        0x0CB8 => Some("Sa"),
        0x0CB9 => Some("Ha"),
        0x0CBC => Some("Nukta"),
        0x0CBD => Some("Avagraha"),
        0x0CBE => Some("Sign Aa"),
        0x0CBF => Some("Sign I"),
        0x0CC0 => Some("Sign Ii"),
        0x0CC1 => Some("Sign U"),
        0x0CC2 => Some("Sign Uu"),
        0x0CC3 => Some("Sign Vocalic R"),
        0x0CC4 => Some("Sign Vocalic Rr"),
        0x0CC6 => Some("Sign E"),
        0x0CC7 => Some("Sign Ee"),
        0x0CC8 => Some("Sign Ai"),
        0x0CCA => Some("Sign O"),
        0x0CCB => Some("Sign Oo"),
        0x0CCC => Some("Sign Au"),
        0x0CCD => Some("Virama"),
        0x0CD5 => Some("Length Mark"),
        0x0CD6 => Some("Ai Length Mark"),
        0x0CDE => Some("Fa"),
        0x0CE0 => Some("Vocalic Rr"),
        0x0CE1 => Some("Vocalic Ll"),
        0x0CE2 => Some("Sign Vocalic L"),
        0x0CE3 => Some("Sign Vocalic Ll"),
        0x0CE6 => Some("Digit Zero"),
        0x0CE7 => Some("Digit One"),
        0x0CE8 => Some("Digit Two"),
        0x0CE9 => Some("Digit Three"),
        0x0CEA => Some("Digit Four"),
        0x0CEB => Some("Digit Five"),
        0x0CEC => Some("Digit Six"),
        0x0CED => Some("Digit Seven"),
        0x0CEE => Some("Digit Eight"),
        0x0CEF => Some("Digit Nine"),
        0x0CF1 => Some("Jihvamuliya"),
        0x0CF2 => Some("Upadhmaniya"),
        _ => None,
    }
}

/// The names of the Malayalam block, by code point.
pub open spec fn malayalam_name(cp: u32) -> Option<&'static str> {
    if cp == 0x0D00 {
        Some("Combining Anusvara Above")
    } else if cp == 0x0D01 {
        Some("Candrabindu")
    } else if cp == 0x0D02 {
        Some("Anusvara")
    } else if cp == 0x0D03 {
        Some("Visarga")
    } else if cp == 0x0D05 {
        Some("A")
    } else if cp == 0x0D06 {
        Some("Aa")
    } else if cp == 0x0D07 {
        Some("I")
    } else if cp == 0x0D08 {
        Some("Ii")
    } else if cp == 0x0D09 {
        Some("U")
    } else if cp == 0x0D0A {
        Some("Uu")
    } else if cp == 0x0D0B {
        Some("Vocalic R")
    } else if cp == 0x0D0C {
        Some("Vocalic L")
    } else if cp == 0x0D0E {
        Some("E")
    } else if cp == 0x0D0F {
        Some("Ee")
    } else if cp == 0x0D10 {
        Some("Ai")
    } else if cp == 0x0D12 {
        Some("O")
    } else if cp == 0x0D13 {
        Some("Oo")
    } else if cp == 0x0D14 {
        Some("Au")
    } else if cp == 0x0D15 {
        Some("Ka")
    } else if cp == 0x0D16 {
        Some("Kha")
    } else if cp == 0x0D17 {
        Some("Ga")
    } else if cp == 0x0D18 {
        Some("Gha")
    } else if cp == 0x0D19 {
        Some("Nga")
    } else if cp == 0x0D1A {
        Some("Ca")
    } else if cp == 0x0D1B {
        Some("Cha")
    } else if cp == 0x0D1C {
        Some("Ja")
    } else if cp == 0x0D1D {
        Some("Jha")
    } else if cp == 0x0D1E {
        Some("Nya")
    } else if cp == 0x0D1F {
        Some("Tta")
    } else if cp == 0x0D20 {
        Some("Ttha")
    } else if cp == 0x0D21 {
        Some("Dda")
    } else if cp == 0x0D22 {
        Some("Ddha")
    } else if cp == 0x0D23 {
        Some("Nna")
    } else if cp == 0x0D24 {
        Some("Ta")
    } else if cp == 0x0D25 {
        Some("Tha")
    } else if cp == 0x0D26 {
        Some("Da")
    } else if cp == 0x0D27 {
        Some("Dha")
    } else if cp == 0x0D28 {
        Some("Na")
    } else if cp == 0x0D29 {
        Some("Nnna")
    } else if cp == 0x0D2A {
        Some("Pa")
    } else if cp == 0x0D2B {
        Some("Pha")
    } else if cp == 0x0D2C {
        Some("Ba")
    } else if cp == 0x0D2D {
        Some("Bha")
    } else if cp == 0x0D2E {
        Some("Ma")
    } else if cp == 0x0D2F {
        Some("Ya")
    } else if cp == 0x0D30 {
        Some("Ra")
    } else if cp == 0x0D31 {
        Some("Rra")
    } else if cp == 0x0D32 {
        Some("La")
    } else if cp == 0x0D33 {
        Some("Lla")
    } else if cp == 0x0D34 {
        Some("Llla")
    } else if cp == 0x0D35 {
        Some("Va")
    } else if cp == 0x0D36 {
        Some("Sha")
    } else if cp == 0x0D37 {
        Some("Ssa")
    } else if cp == 0x0D38 {
        Some("Sa")
    } else if cp == 0x0D39 {
        Some("Ha")
    } else if cp == 0x0D3A {
        Some("Ttta")
    } else if cp == 0x0D3B {
        Some("Vertical Bar Virama")
    } else if cp == 0x0D3C {
        Some("Circular Virama")
    } else if cp == 0x0D3D {
        Some("Avagraha")
    } else if cp == 0x0D3E {
        Some("Sign Aa")
    } else if cp == 0x0D3F {
        Some("Sign I")
    } else if cp == 0x0D40 {
        Some("Sign Ii")
    } else if cp == 0x0D41 {
        Some("Sign U")
    } else if cp == 0x0D42 {
        Some("Sign Uu")
    } else if cp == 0x0D43 {
        Some("Sign Vocalic R")
    } else if cp == 0x0D44 {
        Some("Sign Vocalic Rr")
    } else if cp == 0x0D46 {
        Some("Sign E")
    } else if cp == 0x0D47 {
        Some("Sign Ee")
    } else if cp == 0x0D48 {
        Some("Sign Ai")
    } else if cp == 0x0D4A {
        Some("Sign O")
    } else if cp == 0x0D4B {
        Some("Sign Oo")
    } else if cp == 0x0D4C {
        Some("Sign Au")
    } else if cp == 0x0D4D {
        Some("Virama")
    } else if cp == 0x0D4E {
        Some("Dot Reph")
    } else if cp == 0x0D4F {
        Some("Para")
    } else if cp == 0x0D54 {
        Some("Chillu M")
    } else if cp == 0x0D55 {
        Some("Chillu Y")
    } else if cp == 0x0D56 {
        Some("Chillu Lll")
    } else if cp == 0x0D57 {
        Some("Au Length Mark")
    } else if cp == 0x0D58 {
        Some("Fraction 1/160")
    } else if cp == 0x0D59 {
        Some("Fraction 1/40")
    } else if cp == 0x0D5A {
        Some("Fraction 3/80")
    } else if cp == 0x0D5B {
        Some("Fraction 1/20")
    } else if cp == 0x0D5C {
        Some("Fraction 1/10")
    } else if cp == 0x0D5D {
        Some("Fraction 3/20")
    } else if cp == 0x0D5E {
        Some("Fraction 1/5")
    } else if cp == 0x0D5F {
        Some("Archaic Ii")
    } else if cp == 0x0D60 {
        Some("Vocalic Rr")
    } else if cp == 0x0D61 {
        Some("Vocalic Ll")
    } else if cp == 0x0D62 {
        Some("Sign Vocalic L")
    } else if cp == 0x0D63 {
        Some("Sign Vocalic Ll")
    } else if cp == 0x0D66 {
        Some("Digit Zero")
    } else if cp == 0x0D67 {
        Some("Digit One")
    } else if cp == 0x0D68 {
        Some("Digit Two")
    } else if cp == 0x0D69 {
        Some("Digit Three")
    } else if cp == 0x0D6A {
        Some("Digit Four")
    } else if cp == 0x0D6B {
        Some("Digit Five")
    } else if cp == 0x0D6C {
        Some("Digit Six")
    } else if cp == 0x0D6D {
        Some("Digit Seven")
    } else if cp == 0x0D6E {
        Some("Digit Eight")
    } else if cp == 0x0D6F {
        Some("Digit Nine")
    } else if cp == 0x0D70 {
        Some("Number Ten")
    } else if cp == 0x0D71 {
        Some("Number One Hundred")
    } else if cp == 0x0D72 {
        Some("Number One Thousand")
    } else if cp == 0x0D73 {
        Some("Fraction 1/4")
    } else if cp == 0x0D74 {
        Some("Fraction 1/2")
    } else if cp == 0x0D75 {
        Some("Fraction 3/4")
    } else if cp == 0x0D76 {
        Some("Fraction 1/16")
    } else if cp == 0x0D77 {
        Some("Fraction 1/8")
    } else if cp == 0x0D78 {
        Some("Fraction 3/16")
    } else if cp == 0x0D79 {
        Some("Date Mark")
    } else if cp == 0x0D7A {
        Some("Chillu Nn")
    } else if cp == 0x0D7B {
        Some("Chillu N")
    } else if cp == 0x0D7C {
        Some("Chillu Rr")
    } else if cp == 0x0D7D {
        Some("Chillu L")
    } else if cp == 0x0D7E {
        Some("Chillu Ll")
    } else if cp == 0x0D7F {
        Some("Chillu K")
    } else {
        None
    }
}

fn malayalam_block_name(cp: u32) -> (r: Option<&'static str>)
    ensures
        r == malayalam_name(cp),
{
    match cp {
        0x0D00 => Some("Combining Anusvara Above"),
        0x0D01 => Some("Candrabindu"),
        0x0D02 => Some("Anusvara"),
        0x0D03 => Some("Visarga"),
        0x0D05 => Some("A"),
        0x0D06 => Some("Aa"),
        0x0D07 => Some("I"),
        0x0D08 => Some("Ii"),
        0x0D09 => Some("U"),
        0x0D0A => Some("Uu"),
        0x0D0B => Some("Vocalic R"),
        0x0D0C => Some("Vocalic L"),
        0x0D0E => Some("E"),
        0x0D0F => Some("Ee"),
        0x0D10 => Some("Ai"),
        0x0D12 => Some("O"),
        0x0D13 => Some("Oo"),
        0x0D14 => Some("Au"),
        0x0D15 => Some("Ka"),
        0x0D16 => Some("Kha"),
        0x0D17 => Some("Ga"),
        0x0D18 => Some("Gha"),
        0x0D19 => Some("Nga"),
        0x0D1A => Some("Ca"),
        0x0D1B => Some("Cha"),
        0x0D1C => Some("Ja"),
        0x0D1D => Some("Jha"),
        0x0D1E => Some("Nya"),
        0x0D1F => Some("Tta"),
        0x0D20 => Some("Ttha"),
        0x0D21 => Some("Dda"),
        0x0D22 => Some("Ddha"),
        0x0D23 => Some("Nna"),
        0x0D24 => Some("Ta"),
        0x0D25 => Some("Tha"),
        0x0D26 => Some("Da"),
        0x0D27 => Some("Dha"),
        0x0D28 => Some("Na"),
        0x0D29 => Some("Nnna"),
        0x0D2A => Some("Pa"),
        0x0D2B => Some("Pha"),
        0x0D2C => Some("Ba"),
        0x0D2D => Some("Bha"),
        0x0D2E => Some("Ma"),
        0x0D2F => Some("Ya"),
        0x0D30 => Some("Ra"),
        0x0D31 => Some("Rra"),
        0x0D32 => Some("La"),
        0x0D33 => Some("Lla"),
        0x0D34 => Some("Llla"),
        0x0D35 => Some("Va"),
        0x0D36 => Some("Sha"),
        0x0D37 => Some("Ssa"),
        0x0D38 => Some("Sa"),
        0x0D39 => Some("Ha"),
        0x0D3A => Some("Ttta"),
        0x0D3B => Some("Vertical Bar Virama"),
        0x0D3C => Some("Circular Virama"),
        0x0D3D => Some("Avagraha"),
        0x0D3E => Some("Sign Aa"),
        0x0D3F => Some("Sign I"),
        0x0D40 => Some("Sign Ii"),
        0x0D41 => Some("Sign U"),
        0x0D42 => Some("Sign Uu"),
        0x0D43 => Some("Sign Vocalic R"),
        0x0D44 => Some("Sign Vocalic Rr"),
        0x0D46 => Some("Sign E"),
        0x0D47 => Some("Sign Ee"),
        0x0D48 => Some("Sign Ai"),
        0x0D4A => Some("Sign O"),
        0x0D4B => Some("Sign Oo"),
        0x0D4C => Some("Sign Au"),
        0x0D4D => Some("Virama"),
        0x0D4E => Some("Dot Reph"),
        0x0D4F => Some("Para"),
        0x0D54 => Some("Chillu M"),
        0x0D55 => Some("Chillu Y"),
        0x0D56 => Some("Chillu Lll"),
        0x0D57 => Some("Au Length Mark"),
        0x0D58 => Some("Fraction 1/160"),
        0x0D59 => Some("Fraction 1/40"),
        0x0D5A => Some("Fraction 3/80"),
        0x0D5B => Some("Fraction 1/20"),
        0x0D5C => Some("Fraction 1/10"),
        0x0D5D => Some("Fraction 3/20"),
        0x0D5E => Some("Fraction 1/5"),
        0x0D5F => Some("Archaic Ii"),
        0x0D60 => Some("Vocalic Rr"),
        0x0D61 => Some("Vocalic Ll"),
        0x0D62 => Some("Sign Vocalic L"),
        0x0D63 => Some("Sign Vocalic Ll"),
        0x0D66 => Some("Digit Zero"),
        0x0D67 => Some("Digit One"),
        0x0D68 => Some("Digit Two"),
        0x0D69 => Some("Digit Three"),
        0x0D6A => Some("Digit Four"),
        0x0D6B => Some("Digit Five"),
        0x0D6C => Some("Digit Six"),
        0x0D6D => Some("Digit Seven"),
        0x0D6E => Some("Digit Eight"),
        0x0D6F => Some("Digit Nine"),
        0x0D70 => Some("Number Ten"),
        0x0D71 => Some("Number One Hundred"),
        0x0D72 => Some("Number One Thousand"),
        0x0D73 => Some("Fraction 1/4"),
        0x0D74 => Some("Fraction 1/2"),
        0x0D75 => Some("Fraction 3/4"),
        0x0D76 => Some("Fraction 1/16"),
        0x0D77 => Some("Fraction 1/8"),
        0x0D78 => Some("Fraction 3/16"),
        0x0D79 => Some("Date Mark"),
        0x0D7A => Some("Chillu Nn"),
        0x0D7B => Some("Chillu N"),
        0x0D7C => Some("Chillu Rr"),
        0x0D7D => Some("Chillu L"),
        0x0D7E => Some("Chillu Ll"),
        0x0D7F => Some("Chillu K"),
        _ => None,
    }
}

/// The names of the Sinhala block, by code point.
pub open spec fn sinhala_name(cp: u32) -> Option<&'static str> {
    if cp == 0x0D82 {
        Some("Anusvara")
    } else if cp == 0x0D83 {
        Some("Visarga")
    } else if cp == 0x0D85 {
        Some("A")
    } else if cp == 0x0D86 {
        Some("Aa")
    } else if cp == 0x0D87 {
        Some("Ae")
    } else if cp == 0x0D88 {
        Some("Aae")
    } else if cp == 0x0D89 {
        Some("I")
    } else if cp == 0x0D8A {
        Some("Ii")
    } else if cp == 0x0D8B {
        Some("U")
    } else if cp == 0x0D8C {
        Some("Uu")
    } else if cp == 0x0D8D {
        Some("Vocalic R")
    } else if cp == 0x0D8E {
        Some("Vocalic Rr")
    } else if cp == 0x0D8F {
        Some("Vocalic L")
    } else if cp == 0x0D90 {
        Some("Vocalic Ll")
    } else if cp == 0x0D91 {
        Some("E")
    } else if cp == 0x0D92 {
        Some("Ee")
    } else if cp == 0x0D93 {
        Some("Ai")
    } else if cp == 0x0D94 {
        Some("O")
    } else if cp == 0x0D95 {
        Some("Oo")
    } else if cp == 0x0D96 {
        Some("Au")
    } else if cp == 0x0D9A {
        Some("Ka")
    } else if cp == 0x0D9B {
        Some("Kha")
    } else if cp == 0x0D9C {
        Some("Ga")
    } else if cp == 0x0D9D {
        Some("Gha")
    } else if cp == 0x0D9E {
        Some("Nga")
    } else if cp == 0x0D9F {
        Some("Nnga")
    } else if cp == 0x0DA0 {
        Some("Ca")
    } else if cp == 0x0DA1 {
        Some("Cha")
    } else if cp == 0x0DA2 {
        Some("Ja")
    } else if cp == 0x0DA3 {
        Some("Jha")
    } else if cp == 0x0DA4 {
        Some("Nya")
    } else if cp == 0x0DA5 {
        Some("Jnya")
    } else if cp == 0x0DA6 {
        Some("Nyja")
    } else if cp == 0x0DA7 {
        Some("Tta")
    } else if cp == 0x0DA8 {
        Some("Ttha")
    } else if cp == 0x0DA9 {
        Some("Dda")
    } else if cp == 0x0DAA {
        Some("Ddha")
    } else if cp == 0x0DAB {
        Some("Nna")
    } else if cp == 0x0DAC {
        Some("Nndda")
    } else if cp == 0x0DAD {
        Some("Ta")
    } else if cp == 0x0DAE {
        Some("Tha")
    } else if cp == 0x0DAF {
        Some("Da")
    } else if cp == 0x0DB0 {
        Some("Dha")
    } else if cp == 0x0DB1 {
        Some("Na")
    } else if cp == 0x0DB3 {
        Some("Nda")
    } else if cp == 0x0DB4 {
        Some("Pa")
    } else if cp == 0x0DB5 {
        Some("Pha")
    } else if cp == 0x0DB6 {
        Some("Ba")
    } else if cp == 0x0DB7 {
        Some("Bha")
    } else if cp == 0x0DB8 {
        Some("Ma")
    } else if cp == 0x0DB9 {
        Some("Mba")
    } else if cp == 0x0DBA {
        Some("Ya")
    } else if cp == 0x0DBB {
        Some("Ra")
    } else if cp == 0x0DBD {
        Some("La")
    } else if cp == 0x0DC0 {
        Some("Va")
    } else if cp == 0x0DC1 {
        Some("Sha")
    } else if cp == 0x0DC2 {
        Some("Ssa")
    } else if cp == 0x0DC3 {
        Some("Sa")
    } else if cp == 0x0DC4 {
        Some("Ha")
    } else if cp == 0x0DC5 {
        Some("Lla")
    } else if cp == 0x0DC6 {
        Some("Fa")
    } else if cp == 0x0DCA {
        Some("Virama")
    } else if cp == 0x0DCF {
        Some("Sign Aa")
    } else if cp == 0x0DD0 {
        Some("Sign Ae")
    } else if cp == 0x0DD1 {
        Some("Sign Aae")
    } else if cp == 0x0DD2 {
        Some("Sign I")
    } else if cp == 0x0DD3 {
        Some("Sign Ii")
    } else if cp == 0x0DD4 {
        Some("Sign U")
    } else if cp == 0x0DD6 {
        Some("Sign Uu")
    } else if cp == 0x0DD8 {
        Some("Sign Vocalic R")
    } else if cp == 0x0DD9 {
        Some("Sign E")
    } else if cp == 0x0DDA {
        Some("Sign Ee")
    } else if cp == 0x0DDB {
        Some("Sign Ai")
    } else if cp == 0x0DDC {
        Some("Sign O")
    } else if cp == 0x0DDD {
        Some("Sign Oo")
    } else if cp == 0x0DDE {
        Some("Sign Au")
    } else if cp == 0x0DDF {
        Some("Sign Vocalic L")
    } else if cp == 0x0DE6 {
        Some("Digit Zero")
    } else if cp == 0x0DE7 {
        Some("Digit One")
    } else if cp == 0x0DE8 {
        Some("Digit Two")
    } else if cp == 0x0DE9 {
        Some("Digit Three")
    } else if cp == 0x0DEA {
        Some("Digit Four")
    } else if cp == 0x0DEB {
        Some("Digit Five")
    } else if cp == 0x0DEC {
        Some("Digit Six")
    } else if cp == 0x0DED {
        Some("Digit Seven")
    } else if cp == 0x0DEE {
        Some("Digit Eight")
    } else if cp == 0x0DEF {
        Some("Digit Nine")
    } else if cp == 0x0DF2 {
        Some("Sign Vocalic Rr")
    } else if cp == 0x0DF3 {
        Some("Sign Vocalic Ll")
    } else if cp == 0x0DF4 {
        Some("Kunddaliya")
    } else {
        None
    }
}

fn sinhala_block_name(cp: u32) -> (r: Option<&'static str>)
    ensures
        r == sinhala_name(cp),
{
    match cp {
        0x0D82 => Some("Anusvara"),
        0x0D83 => Some("Visarga"),
        0x0D85 => Some("A"),
        0x0D86 => Some("Aa"),
        0x0D87 => Some("Ae"),
        0x0D88 => Some("Aae"),
        0x0D89 => Some("I"),
        0x0D8A => Some("Ii"),
        0x0D8B => Some("U"),
        0x0D8C => Some("Uu"),
        0x0D8D => Some("Vocalic R"),
        0x0D8E => Some("Vocalic Rr"),
        0x0D8F => Some("Vocalic L"),
        0x0D90 => Some("Vocalic Ll"),
        0x0D91 => Some("E"),
        0x0D92 => Some("Ee"),
        0x0D93 => Some("Ai"),
        0x0D94 => Some("O"),
        0x0D95 => Some("Oo"),
        0x0D96 => Some("Au"),
        0x0D9A => Some("Ka"),
        0x0D9B => Some("Kha"),
        0x0D9C => Some("Ga"),
        0x0D9D => Some("Gha"),
        0x0D9E => Some("Nga"),
        0x0D9F => Some("Nnga"),
        0x0DA0 => Some("Ca"),
        0x0DA1 => Some("Cha"),
        0x0DA2 => Some("Ja"),
        0x0DA3 => Some("Jha"),
        0x0DA4 => Some("Nya"),
        0x0DA5 => Some("Jnya"),
        0x0DA6 => Some("Nyja"),
        0x0DA7 => Some("Tta"),
        0x0DA8 => Some("Ttha"),
        0x0DA9 => Some("Dda"),
        0x0DAA => Some("Ddha"),
        0x0DAB => Some("Nna"),
        0x0DAC => Some("Nndda"),
        0x0DAD => Some("Ta"),
        0x0DAE => Some("Tha"),
        0x0DAF => Some("Da"),
        0x0DB0 => Some("Dha"),
        0x0DB1 => Some("Na"),
        0x0DB3 => Some("Nda"),
        0x0DB4 => Some("Pa"),
        0x0DB5 => Some("Pha"),
        0x0DB6 => Some("Ba"),
        0x0DB7 => Some("Bha"),
        0x0DB8 => Some("Ma"),
        0x0DB9 => Some("Mba"),
        0x0DBA => Some("Ya"),
        0x0DBB => Some("Ra"),
        0x0DBD => Some("La"),
        0x0DC0 => Some("Va"),
        0x0DC1 => Some("Sha"),
        0x0DC2 => Some("Ssa"),
        0x0DC3 => Some("Sa"),
        0x0DC4 => Some("Ha"),
        0x0DC5 => Some("Lla"),
        0x0DC6 => Some("Fa"),
        0x0DCA => Some("Virama"),
        0x0DCF => Some("Sign Aa"),
        0x0DD0 => Some("Sign Ae"),
        0x0DD1 => Some("Sign Aae"),
        0x0DD2 => Some("Sign I"),
        0x0DD3 => Some("Sign Ii"),
        0x0DD4 => Some("Sign U"),
        0x0DD6 => Some("Sign Uu"),
        0x0DD8 => Some("Sign Vocalic R"),
        0x0DD9 => Some("Sign E"),
        0x0DDA => Some("Sign Ee"),
        0x0DDB => Some("Sign Ai"),
        0x0DDC => Some("Sign O"),
        0x0DDD => Some("Sign Oo"),
        0x0DDE => Some("Sign Au"),
        0x0DDF => Some("Sign Vocalic L"),
        0x0DE6 => Some("Digit Zero"),
        0x0DE7 => Some("Digit One"),
        0x0DE8 => Some("Digit Two"),
        0x0DE9 => Some("Digit Three"),
        0x0DEA => Some("Digit Four"),
        0x0DEB => Some("Digit Five"),
        0x0DEC => Some("Digit Six"),
        0x0DED => Some("Digit Seven"),
        0x0DEE => Some("Digit Eight"),
        0x0DEF => Some("Digit Nine"),
        0x0DF2 => Some("Sign Vocalic Rr"),
        0x0DF3 => Some("Sign Vocalic Ll"),
        0x0DF4 => Some("Kunddaliya"),
        _ => None,
    }
}

/// The names of the Vedic Extensions block, by code point.
pub open spec fn vedic_extensions_name(cp: u32) -> Option<&'static str> {
    if cp == 0x1CD0 {
        Some("Tone Karshana")
    } else if cp == 0x1CD1 {
        Some("Tone Shara")
    } else if cp == 0x1CD2 {
        Some("Tone Prenkha")
    } else if cp == 0x1CD3 {
        Some("Sign Nihshvasa")
    } else if cp == 0x1CD4 {
        Some("Tone Midline Svarita")
    } else if cp == 0x1CD5 {
        Some("Tone Aggravated Independent Svarita")
    } else if cp == 0x1CD6 {
        Some("Tone Independent Svarita")
    } else if cp == 0x1CD7 {
        Some("Tone Kathaka Independent Svarita")
    } else if cp == 0x1CD8 {
        Some("Tone Candra Below")
    } else if cp == 0x1CD9 {
        Some("Tone Kathaka Independent Svarita Schroeder")
    } else if cp == 0x1CDA {
        Some("Tone Double Svarita")
    } else if cp == 0x1CDB {
        Some("Tone Triple Svarita")
    } else if cp == 0x1CDC {
        Some("Tone Kathaka Anudatta")
    } else if cp == 0x1CDD {
        Some("Tone Dot Below")
    } else if cp == 0x1CDE {
        Some("Tone Two Dots Below")
    } else if cp == 0x1CDF {
        Some("Tone Three Dots Below")
    } else if cp == 0x1CE0 {
        Some("Tone Rigvedic Kashmiri Independent Svarita")
    } else if cp == 0x1CE1 {
        Some("Tone Atharavedic Independent Svarita")
    } else if cp == 0x1CE2 {
        Some("Sign Visarga Svarita")
    } else if cp == 0x1CE3 {
        Some("Sign Visarga Udatta")
    } else if cp == 0x1CE4 {
        Some("Sign Reversed Visarga Udatta")
    } else if cp == 0x1CE5 {
        Some("Sign Visarga Anudatta")
    } else if cp == 0x1CE6 {
        Some("Sign Reversed Visarga Anudatta")
    } else if cp == 0x1CE7 {
        Some("Sign Visarga Udatta With Tail")
    } else if cp == 0x1CE8 {
        Some("Sign Visarga Anudatta With Tail")
    } else if cp == 0x1CE9 {
        Some("Sign Anusvara Antargomukha")
    } else if cp == 0x1CEA {
        Some("Sign Anusvara Bahirgomukha")
    } else if cp == 0x1CEB {
        Some("Sign Anusvara Vamagomukha")
    } else if cp == 0x1CEC {
        Some("Sign Anusvara Vamagomukha With Tail")
    } else if cp == 0x1CED {
        Some("Sign Tiryak")
    } else if cp == 0x1CEE {
        Some("Sign Hexiform Long Anusvara")
    } else if cp == 0x1CEF {
        Some("Sign Long Anusvara")
    } else if cp == 0x1CF0 {
        Some("Sign Rthang Long Anusvara")
    } else if cp == 0x1CF1 {
        Some("Sign Anusvara Ubhayato Mukha")
    } else if cp == 0x1CF2 {
        Some("Sign Ardhavisarga")
    } else if cp == 0x1CF3 {
        Some("Sign Rotated Ardhavisarga")
    } else if cp == 0x1CF4 {
        Some("Tone Candra Above")
    } else if cp == 0x1CF5 {
        Some("Sign Jihvamuliya")
    } else if cp == 0x1CF6 {
        Some("Sign Upadhmaniya")
    } else if cp == 0x1CF7 {
        Some("Sign Atikrama")
    } else if cp == 0x1CF8 {
        Some("Tone Ring Above")
    } else if cp == 0x1CF9 {
        Some("Tone Double Ring Above")
    } else {
        None
    }
}

fn vedic_extensions_block_name(cp: u32) -> (r: Option<&'static str>)
    ensures
        r == vedic_extensions_name(cp),
{
    match cp {
        0x1CD0 => Some("Tone Karshana"),
        0x1CD1 => Some("Tone Shara"),
        0x1CD2 => Some("Tone Prenkha"),
        0x1CD3 => Some("Sign Nihshvasa"),
        0x1CD4 => Some("Tone Midline Svarita"),
        0x1CD5 => Some("Tone Aggravated Independent Svarita"),
        0x1CD6 => Some("Tone Independent Svarita"),
        0x1CD7 => Some("Tone Kathaka Independent Svarita"),
        0x1CD8 => Some("Tone Candra Below"),
        0x1CD9 => Some("Tone Kathaka Independent Svarita Schroeder"),
        0x1CDA => Some("Tone Double Svarita"),
        0x1CDB => Some("Tone Triple Svarita"),
        0x1CDC => Some("Tone Kathaka Anudatta"),
        0x1CDD => Some("Tone Dot Below"),
        0x1CDE => Some("Tone Two Dots Below"),
        0x1CDF => Some("Tone Three Dots Below"),
        0x1CE0 => Some("Tone Rigvedic Kashmiri Independent Svarita"),
        0x1CE1 => Some("Tone Atharavedic Independent Svarita"),
        0x1CE2 => Some("Sign Visarga Svarita"),
        0x1CE3 => Some("Sign Visarga Udatta"),
        0x1CE4 => Some("Sign Reversed Visarga Udatta"),
        0x1CE5 => Some("Sign Visarga Anudatta"),
        0x1CE6 => Some("Sign Reversed Visarga Anudatta"),
        0x1CE7 => Some("Sign Visarga Udatta With Tail"),
        0x1CE8 => Some("Sign Visarga Anudatta With Tail"),
        0x1CE9 => Some("Sign Anusvara Antargomukha"),
        0x1CEA => Some("Sign Anusvara Bahirgomukha"),
        0x1CEB => Some("Sign Anusvara Vamagomukha"),
        0x1CEC => Some("Sign Anusvara Vamagomukha With Tail"),
        0x1CED => Some("Sign Tiryak"),
        0x1CEE => Some("Sign Hexiform Long Anusvara"),
        0x1CEF => Some("Sign Long Anusvara"),
        0x1CF0 => Some("Sign Rthang Long Anusvara"),
        0x1CF1 => Some("Sign Anusvara Ubhayato Mukha"),
        0x1CF2 => Some("Sign Ardhavisarga"),
        0x1CF3 => Some("Sign Rotated Ardhavisarga"),
        0x1CF4 => Some("Tone Candra Above"),
        0x1CF5 => Some("Sign Jihvamuliya"),
        0x1CF6 => Some("Sign Upadhmaniya"),
        0x1CF7 => Some("Sign Atikrama"),
        0x1CF8 => Some("Tone Ring Above"),
        0x1CF9 => Some("Tone Double Ring Above"),
        _ => None,
    }
}

/// The names of the Devanagari Extended block, by code point.
pub open spec fn devanagari_extended_name(cp: u32) -> Option<&'static str> {
    if cp == 0xA8E0 {
        Some("Combining Zero")
    } else if cp == 0xA8E1 {
        Some("Combining One")
    } else if cp == 0xA8E2 {
        Some("Combining Two")
    } else if cp == 0xA8E3 {
        Some("Combining Three")
    } else if cp == 0xA8E4 {
        Some("Combining Four")
    } else if cp == 0xA8E5 {
        Some("Combining Five")
    } else if cp == 0xA8E6 {
        Some("Combining Six")
    } else if cp == 0xA8E7 {
        Some("Combining Seven")
    } else if cp == 0xA8E8 {
        Some("Combining Eight")
    } else if cp == 0xA8E9 {
        Some("Combining Nine")
    } else if cp == 0xA8EA {
        Some("Combining A")
    } else if cp == 0xA8EB {
        Some("Combining U")
    } else if cp == 0xA8EC {
        Some("Combining Ka")
    } else if cp == 0xA8ED {
        Some("Combining Na")
    } else if cp == 0xA8EE {
        Some("Combining Pa")
    } else if cp == 0xA8EF {
        Some("Combining Ra")
    } else if cp == 0xA8F0 {
        Some("Combining Vi")
    } else if cp == 0xA8F1 {
        Some("Combining Avagraha")
    } else if cp == 0xA8F2 {
        Some("Spacing Candrabindu")
    } else if cp == 0xA8F3 {
        Some("Candrabindu Virama")
    } else if cp == 0xA8F4 {
        Some("Double Candrabindu Virama")
    } else if cp == 0xA8F5 {
        Some("Candrabindu Two")
    } else if cp == 0xA8F6 {
        Some("Candrabindu Three")
    } else if cp == 0xA8F7 {
        Some("Candrabindu Avagraha")
    } else if cp == 0xA8F8 {
        Some("Pushpika")
    } else if cp == 0xA8F9 {
        Some("Gap Filler")
    } else if cp == 0xA8FA {
        Some("Caret")
    } else if cp == 0xA8FB {
        Some("Headstroke")
    } else if cp == 0xA8FC {
        Some("Siddham")
    } else if cp == 0xA8FD {
        Some("Jain Om")
    } else if cp == 0xA8FE {
        Some("Ay")
    } else if cp == 0xA8FF {
        Some("Sign Ay")
    } else {
        None
    }
}

fn devanagari_extended_block_name(cp: u32) -> (r: Option<&'static str>)
    ensures
        r == devanagari_extended_name(cp),
{
    match cp {
        0xA8E0 => Some("Combining Zero"),
        0xA8E1 => Some("Combining One"),
        0xA8E2 => Some("Combining Two"),
        0xA8E3 => Some("Combining Three"),
        0xA8E4 => Some("Combining Four"),
        0xA8E5 => Some("Combining Five"),
        0xA8E6 => Some("Combining Six"),
        0xA8E7 => Some("Combining Seven"),
        0xA8E8 => Some("Combining Eight"),
        0xA8E9 => Some("Combining Nine"),
        0xA8EA => Some("Combining A"),
        0xA8EB => Some("Combining U"),
        0xA8EC => Some("Combining Ka"),
        0xA8ED => Some("Combining Na"),
        0xA8EE => Some("Combining Pa"),
        0xA8EF => Some("Combining Ra"),
        0xA8F0 => Some("Combining Vi"),
        0xA8F1 => Some("Combining Avagraha"),
        0xA8F2 => Some("Spacing Candrabindu"),
        0xA8F3 => Some("Candrabindu Virama"),
        0xA8F4 => Some("Double Candrabindu Virama"),
        0xA8F5 => Some("Candrabindu Two"),
        0xA8F6 => Some("Candrabindu Three"),
        0xA8F7 => Some("Candrabindu Avagraha"),
        0xA8F8 => Some("Pushpika"),
        0xA8F9 => Some("Gap Filler"),
        0xA8FA => Some("Caret"),
        0xA8FB => Some("Headstroke"),
        0xA8FC => Some("Siddham"),
        0xA8FD => Some("Jain Om"),
        0xA8FE => Some("Ay"),
        0xA8FF => Some("Sign Ay"),
        _ => None,
    }
}

/// The names of the Sinhala Archaic Numbers block, by code point.
pub open spec fn sinhala_archaic_numbers_name(cp: u32) -> Option<&'static str> {
    if cp == 0x111E1 {
        Some("Archaic Digit One")
    } else if cp == 0x111E2 {
        Some("Archaic Digit Two")
    } else if cp == 0x111E3 {
        Some("Archaic Digit Three")
    } else if cp == 0x111E4 {
        Some("Archaic Digit Four")
    } else if cp == 0x111E5 {
        Some("Archaic Digit Five")
    } else if cp == 0x111E6 {
        Some("Archaic Digit Six")
    } else if cp == 0x111E7 {
        Some("Archaic Digit Seven")
    } else if cp == 0x111E8 {
        Some("Archaic Digit Eight")
    } else if cp == 0x111E9 {
        Some("Archaic Digit Nine")
    } else if cp == 0x111EA {
        Some("Archaic Number Ten")
    } else if cp == 0x111EB {
        Some("Archaic Number 20")
    } else if cp == 0x111EC {
        Some("Archaic Number 30")
    } else if cp == 0x111ED {
        Some("Archaic Number 40")
    } else if cp == 0x111EE {
        Some("Archaic Number 50")
    } else if cp == 0x111EF {
        Some("Archaic Number 60")
    } else if cp == 0x111F0 {
        Some("Archaic Number 70")
    } else if cp == 0x111F1 {
        Some("Archaic Number 80")
    } else if cp == 0x111F2 {
        Some("Archaic Number 90")
    } else if cp == 0x111F3 {
        Some("Archaic Number 100")
    } else if cp == 0x111F4 {
        Some("Archaic Number 1000")
    } else {
        None
    }
}

fn sinhala_archaic_numbers_block_name(cp: u32) -> (r: Option<&'static str>)
    ensures
        r == sinhala_archaic_numbers_name(cp),
{
    match cp {
        0x111E1 => Some("Archaic Digit One"),
        0x111E2 => Some("Archaic Digit Two"),
        0x111E3 => Some("Archaic Digit Three"),
        0x111E4 => Some("Archaic Digit Four"),
        0x111E5 => Some("Archaic Digit Five"),
        0x111E6 => Some("Archaic Digit Six"),
        0x111E7 => Some("Archaic Digit Seven"),
        0x111E8 => Some("Archaic Digit Eight"),
        0x111E9 => Some("Archaic Digit Nine"),
        0x111EA => Some("Archaic Number Ten"),
        0x111EB => Some("Archaic Number 20"),
        0x111EC => Some("Archaic Number 30"),
        0x111ED => Some("Archaic Number 40"),
        0x111EE => Some("Archaic Number 50"),
        0x111EF => Some("Archaic Number 60"),
        0x111F0 => Some("Archaic Number 70"),
        0x111F1 => Some("Archaic Number 80"),
        0x111F2 => Some("Archaic Number 90"),
        0x111F3 => Some("Archaic Number 100"),
        0x111F4 => Some("Archaic Number 1000"),
        _ => None,
    }
}

/// The names of the Grantha marks block, by code point.
pub open spec fn grantha_marks_name(cp: u32) -> Option<&'static str> {
    if cp == 0x11301 {
        Some("Grantha Candrabindu")
    } else if cp == 0x11303 {
        Some("Grantha Visarga")
    } else if cp == 0x1133C {
        Some("Grantha Nukta")
    } else {
        None
    }
}

fn grantha_marks_block_name(cp: u32) -> (r: Option<&'static str>)
    ensures
        r == grantha_marks_name(cp),
{
    match cp {
        0x11301 => Some("Grantha Candrabindu"),
        0x11303 => Some("Grantha Visarga"),
        0x1133C => Some("Grantha Nukta"),
        _ => None,
    }
}

/// The names of the Miscellaneous block, by code point.
pub open spec fn miscellaneous_name(cp: u32) -> Option<&'static str> {
    if cp == 0x00A0 {
        Some("No-break space")
    } else if cp == 0x00B2 {
        Some("Superscript Two (used in Tamil)")
    } else if cp == 0x00B3 {
        Some("Superscript Three (used in Tamil)")
    } else if cp == 0x200C {
        Some("Zero-width non-joiner")
    } else if cp == 0x200D {
        Some("Zero-width joiner")
    } else if cp == 0x2010 {
        Some("Hyphen")
    } else if cp == 0x2011 {
        Some("No-break hyphen")
    } else if cp == 0x2012 {
        Some("Figure dash")
    } else if cp == 0x2013 {
        Some("En dash")
    } else if cp == 0x2014 {
        Some("Em dash")
    } else if cp == 0x2074 {
        Some("Superscript Four (used in Tamil)")
    } else if cp == 0x2082 {
        Some("Subscript Two (used in Tamil)")
    } else if cp == 0x2083 {
        Some("Subscript Three (used in Tamil)")
    } else if cp == 0x2084 {
        Some("Subscript Four (used in Tamil)")
    } else if cp == 0x25CC {
        Some("Dotted circle")
    } else {
        None
    }
}

fn miscellaneous_block_name(cp: u32) -> (r: Option<&'static str>)
    ensures
        r == miscellaneous_name(cp),
{
    match cp {
        0x00A0 => Some("No-break space"),
        0x00B2 => Some("Superscript Two (used in Tamil)"),
        0x00B3 => Some("Superscript Three (used in Tamil)"),
        0x200C => Some("Zero-width non-joiner"),
        0x200D => Some("Zero-width joiner"),
        0x2010 => Some("Hyphen"),
        0x2011 => Some("No-break hyphen"),
        0x2012 => Some("Figure dash"),
        0x2013 => Some("En dash"),
        0x2014 => Some("Em dash"),
        0x2074 => Some("Superscript Four (used in Tamil)"),
        0x2082 => Some("Subscript Two (used in Tamil)"),
        0x2083 => Some("Subscript Three (used in Tamil)"),
        0x2084 => Some("Subscript Four (used in Tamil)"),
        0x25CC => Some("Dotted circle"),
        _ => None,
    }
}

/// The short name of a character of the Indic table, where it has one.
pub open spec fn name_of(c: char) -> Option<&'static str> {
    let cp = c as u32;
    if 0x0900 <= cp && cp <= 0x097F {
        devanagari_name(cp)
    } else if 0x0980 <= cp && cp <= 0x09FE {
        bengali_name(cp)
    } else if 0x0A01 <= cp && cp <= 0x0A76 {
        gurmukhi_name(cp)
    } else if 0x0A81 <= cp && cp <= 0x0AFF {
        gujarati_name(cp)
    } else if 0x0B01 <= cp && cp <= 0x0B77 {
        oriya_name(cp)
    } else if 0x0B82 <= cp && cp <= 0x0BFA {
        tamil_name(cp)
    } else if 0x0C00 <= cp && cp <= 0x0C7F {
        telugu_name(cp)
    } else if 0x0C80 <= cp && cp <= 0x0CF2 {
        kannada_name(cp)
    } else if 0x0D00 <= cp && cp <= 0x0D7F {
        malayalam_name(cp)
    } else if 0x0D82 <= cp && cp <= 0x0DF4 {
        sinhala_name(cp)
    } else if 0x1CD0 <= cp && cp <= 0x1CF9 {
        vedic_extensions_name(cp)
    } else if 0xA8E0 <= cp && cp <= 0xA8FF {
        devanagari_extended_name(cp)
    } else if 0x111E1 <= cp && cp <= 0x111F4 {
        sinhala_archaic_numbers_name(cp)
    } else if 0x11301 <= cp && cp <= 0x1133C {
        grantha_marks_name(cp)
    } else {
        miscellaneous_name(cp)
    }
}

/// Looks up the short name of a character of the Indic table.
pub fn indic_name(ch: char) -> (r: Option<&'static str>)
    ensures
        r == name_of(ch),
{
    let cp = ch as u32;
    if 0x0900 <= cp && cp <= 0x097F {
        devanagari_block_name(cp)
    } else if 0x0980 <= cp && cp <= 0x09FE {
        bengali_block_name(cp)
    } else if 0x0A01 <= cp && cp <= 0x0A76 {
        gurmukhi_block_name(cp)
    } else if 0x0A81 <= cp && cp <= 0x0AFF {
        gujarati_block_name(cp)
    } else if 0x0B01 <= cp && cp <= 0x0B77 {
        oriya_block_name(cp)
    } else if 0x0B82 <= cp && cp <= 0x0BFA {
        tamil_block_name(cp)
    } else if 0x0C00 <= cp && cp <= 0x0C7F {
        telugu_block_name(cp)
    } else if 0x0C80 <= cp && cp <= 0x0CF2 {
        kannada_block_name(cp)
    } else if 0x0D00 <= cp && cp <= 0x0D7F {
        malayalam_block_name(cp)
    } else if 0x0D82 <= cp && cp <= 0x0DF4 {
        sinhala_block_name(cp)
    } else if 0x1CD0 <= cp && cp <= 0x1CF9 {
        vedic_extensions_block_name(cp)
    } else if 0xA8E0 <= cp && cp <= 0xA8FF {
        devanagari_extended_block_name(cp)
    } else if 0x111E1 <= cp && cp <= 0x111F4 {
        sinhala_archaic_numbers_block_name(cp)
    } else if 0x11301 <= cp && cp <= 0x1133C {
        grantha_marks_block_name(cp)
    } else {
        miscellaneous_block_name(cp)
    }
}

} // verus!
