//! Facts about the display labels of the decode tables: their lengths, and
//! a distinguishing character for each pair of equal length. Together they
//! let a proof tell any two distinct labels apart.

use vstd::prelude::*;

verus! {

/// Reveals every display label and states enough of each view to tell any
/// two distinct labels apart.
pub proof fn lemma_label_facts()
    ensures
        "A"@.len() == 1,
        "B"@.len() == 1,
        "C"@.len() == 1,
        "D"@.len() == 1,
        "E"@.len() == 1,
        "F"@.len() == 1,
        "G"@.len() == 1,
        "H"@.len() == 1,
        "I"@.len() == 1,
        "J"@.len() == 1,
        "K"@.len() == 1,
        "L"@.len() == 1,
        "M"@.len() == 1,
        "N"@.len() == 1,
        "O"@.len() == 1,
        "P"@.len() == 1,
        "Q"@.len() == 1,
        "R"@.len() == 1,
        "S"@.len() == 1,
        "T"@.len() == 1,
        "U"@.len() == 1,
        "V"@.len() == 1,
        "W"@.len() == 1,
        "X"@.len() == 1,
        "Y"@.len() == 1,
        "Z"@.len() == 1,
        "0"@.len() == 1,
        "1"@.len() == 1,
        "2"@.len() == 1,
        "3"@.len() == 1,
        "4"@.len() == 1,
        "5"@.len() == 1,
        "6"@.len() == 1,
        "7"@.len() == 1,
        "8"@.len() == 1,
        "9"@.len() == 1,
        "↑"@.len() == 1,
        "↓"@.len() == 1,
        "←"@.len() == 1,
        "→"@.len() == 1,
        "-"@.len() == 1,
        "="@.len() == 1,
        "["@.len() == 1,
        "]"@.len() == 1,
        ";"@.len() == 1,
        "'"@.len() == 1,
        "`"@.len() == 1,
        "\\"@.len() == 1,
        ","@.len() == 1,
        "."@.len() == 1,
        "/"@.len() == 1,
        "F1"@.len() == 2,
        "F2"@.len() == 2,
        "F3"@.len() == 2,
        "F4"@.len() == 2,
        "F5"@.len() == 2,
        "F6"@.len() == 2,
        "F7"@.len() == 2,
        "F8"@.len() == 2,
        "F9"@.len() == 2,
        "Esc"@.len() == 3,
        "Tab"@.len() == 3,
        "End"@.len() == 3,
        "F10"@.len() == 3,
        "F11"@.len() == 3,
        "F12"@.len() == 3,
        "Alt"@.len() == 3,
        "Cmd"@.len() == 3,
        "Win"@.len() == 3,
        "Ctrl"@.len() == 4,
        "PgUp"@.len() == 4,
        "PgDn"@.len() == 4,
        "Home"@.len() == 4,
        "Shift"@.len() == 5,
        "Super"@.len() == 5,
        "Space"@.len() == 5,
        "Enter"@.len() == 5,
        "Delete"@.len() == 6,
        "Backspace"@.len() == 9,
        "Alt"@[0] == 'A',
        "Cmd"@[0] == 'C',
        "Win"@[0] == 'W',
        "Esc"@[0] == 'E',
        "Tab"@[0] == 'T',
        "End"@[0] == 'E',
        "F10"@[0] == 'F',
        "F11"@[0] == 'F',
        "F12"@[0] == 'F',
        "Ctrl"@[0] == 'C',
        "PgUp"@[0] == 'P',
        "PgDn"@[0] == 'P',
        "Home"@[0] == 'H',
        "Shift"@[0] == 'S',
        "Super"@[0] == 'S',
        "Space"@[0] == 'S',
        "Enter"@[0] == 'E',
        "Shift"@[1] == 'h',
        "Super"@[1] == 'u',
        "Space"@[1] == 'p',
{
    reveal_strlit("A");
    reveal_strlit("B");
    reveal_strlit("C");
    reveal_strlit("D");
    reveal_strlit("E");
    reveal_strlit("F");
    reveal_strlit("G");
    reveal_strlit("H");
    reveal_strlit("I");
    reveal_strlit("J");
    reveal_strlit("K");
    reveal_strlit("L");
    reveal_strlit("M");
    reveal_strlit("N");
    reveal_strlit("O");
    reveal_strlit("P");
    reveal_strlit("Q");
    reveal_strlit("R");
    reveal_strlit("S");
    reveal_strlit("T");
    reveal_strlit("U");
    reveal_strlit("V");
    reveal_strlit("W");
    reveal_strlit("X");
    reveal_strlit("Y");
    reveal_strlit("Z");
    reveal_strlit("0");
    reveal_strlit("1");
    reveal_strlit("2");
    reveal_strlit("3");
    reveal_strlit("4");
    reveal_strlit("5");
    reveal_strlit("6");
    reveal_strlit("7");
    reveal_strlit("8");
    reveal_strlit("9");
    reveal_strlit("↑");
    reveal_strlit("↓");
    reveal_strlit("←");
    reveal_strlit("→");
    reveal_strlit("-");
    reveal_strlit("=");
    reveal_strlit("[");
    reveal_strlit("]");
    reveal_strlit(";");
    reveal_strlit("'");
    reveal_strlit("`");
    reveal_strlit("\\");
    reveal_strlit(",");
    reveal_strlit(".");
    reveal_strlit("/");
    reveal_strlit("F1");
    reveal_strlit("F2");
    reveal_strlit("F3");
    reveal_strlit("F4");
    reveal_strlit("F5");
    reveal_strlit("F6");
    reveal_strlit("F7");
    reveal_strlit("F8");
    reveal_strlit("F9");
    reveal_strlit("Esc");
    reveal_strlit("Tab");
    reveal_strlit("End");
    reveal_strlit("F10");
    reveal_strlit("F11");
    reveal_strlit("F12");
    reveal_strlit("Alt");
    reveal_strlit("Cmd");
    reveal_strlit("Win");
    reveal_strlit("Ctrl");
    reveal_strlit("PgUp");
    reveal_strlit("PgDn");
    reveal_strlit("Home");
    reveal_strlit("Shift");
    reveal_strlit("Super");
    reveal_strlit("Space");
    reveal_strlit("Enter");
    reveal_strlit("Delete");
    reveal_strlit("Backspace");
}

} // verus!
