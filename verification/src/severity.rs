//! The severity of a log record and its display labels: a fixed-width,
//! optionally colored label for console lines, and a plain unpadded name
//! for file lines.

use vstd::prelude::*;

use crate::ansi::ansi_wrap;
use crate::ansi::code_blue;
use crate::ansi::code_dim_gray;
use crate::ansi::code_green;
use crate::ansi::code_purple;
use crate::ansi::code_red;
use crate::ansi::code_yellow;
use crate::ansi::paint_blue;
use crate::ansi::paint_dim_gray;
use crate::ansi::paint_green;
use crate::ansi::paint_purple;
use crate::ansi::paint_red;
use crate::ansi::paint_yellow;

verus! {

/// The importance of a log record, from silent to most verbose.
#[derive(Clone, Copy, PartialEq, Eq, Structural, Debug)]
pub enum Severity {
    Off,
    Error,
    Warn,
    Info,
    Debug,
    Trace,
}

/// The fixed-width console label of a severity. `Warn` and `Info` carry a
/// trailing space, so that every label but `Off` is five characters wide
/// and columns line up across lines of differing severity.
pub open spec fn label_of(sev: Severity) -> Seq<char> {
    match sev {
        Severity::Off => seq!['O', 'F', 'F'],
        Severity::Error => seq!['E', 'R', 'R', 'O', 'R'],
        Severity::Warn => seq!['W', 'A', 'R', 'N', ' '],
        Severity::Info => seq!['I', 'N', 'F', 'O', ' '],
        Severity::Debug => seq!['D', 'E', 'B', 'U', 'G'],
        Severity::Trace => seq!['T', 'R', 'A', 'C', 'E'],
    }
}

/// The plain, unpadded name of a severity, as file lines carry it.
pub open spec fn name_of(sev: Severity) -> Seq<char> {
    match sev {
        Severity::Off => seq!['O', 'F', 'F'],
        Severity::Error => seq!['E', 'R', 'R', 'O', 'R'],
        Severity::Warn => seq!['W', 'A', 'R', 'N'],
        Severity::Info => seq!['I', 'N', 'F', 'O'],
        Severity::Debug => seq!['D', 'E', 'B', 'U', 'G'],
        Severity::Trace => seq!['T', 'R', 'A', 'C', 'E'],
    }
}

/// The SGR color code that the colored label of a severity is wrapped in.
pub open spec fn color_code_of(sev: Severity) -> Seq<char> {
    match sev {
        Severity::Off => code_dim_gray(),
        Severity::Error => code_red(),
        Severity::Warn => code_yellow(),
        Severity::Info => code_green(),
        Severity::Debug => code_blue(),
        Severity::Trace => code_purple(),
    }
}

/// The fixed-width label, plain.
pub fn level_label(sev: Severity) -> (r: String)
    ensures
        r@ == label_of(sev),
{
    match sev {
        Severity::Off => {
            proof {
                reveal_strlit("OFF");
                assert("OFF"@ =~= label_of(sev));
            }
            "OFF".to_owned()
        }
        Severity::Error => {
            proof {
                reveal_strlit("ERROR");
                assert("ERROR"@ =~= label_of(sev));
            }
            "ERROR".to_owned()
        }
        Severity::Warn => {
            proof {
                reveal_strlit("WARN ");
                assert("WARN "@ =~= label_of(sev));
            }
            "WARN ".to_owned()
        }
        Severity::Info => {
            proof {
                reveal_strlit("INFO ");
                assert("INFO "@ =~= label_of(sev));
            }
            "INFO ".to_owned()
        }
        Severity::Debug => {
            proof {
                reveal_strlit("DEBUG");
                assert("DEBUG"@ =~= label_of(sev));
            }
            "DEBUG".to_owned()
        }
        Severity::Trace => {
            proof {
                reveal_strlit("TRACE");
                assert("TRACE"@ =~= label_of(sev));
            }
            "TRACE".to_owned()
        }
    }
}

/// The fixed-width label, wrapped in the severity's color.
pub fn level_label_colored(sev: Severity) -> (r: String)
    ensures
        r@ == ansi_wrap(color_code_of(sev), label_of(sev)),
{
    let plain = level_label(sev);
    match sev {
        Severity::Off => paint_dim_gray(plain.as_str()),
        Severity::Error => paint_red(plain.as_str()),
        Severity::Warn => paint_yellow(plain.as_str()),
        Severity::Info => paint_green(plain.as_str()),
        Severity::Debug => paint_blue(plain.as_str()),
        Severity::Trace => paint_purple(plain.as_str()),
    }
}

/// The plain name, as file lines carry it.
pub fn severity_name(sev: Severity) -> (r: String)
    ensures
        r@ == name_of(sev),
{
    match sev {
        Severity::Off => {
            proof {
                reveal_strlit("OFF");
                assert("OFF"@ =~= name_of(sev));
            }
            "OFF".to_owned()
        }
        Severity::Error => {
            proof {
                reveal_strlit("ERROR");
                assert("ERROR"@ =~= name_of(sev));
            }
            "ERROR".to_owned()
        }
        Severity::Warn => {
            proof {
                reveal_strlit("WARN");
                assert("WARN"@ =~= name_of(sev));
            }
            "WARN".to_owned()
        }
        Severity::Info => {
            proof {
                reveal_strlit("INFO");
                assert("INFO"@ =~= name_of(sev));
            }
            "INFO".to_owned()
        }
        Severity::Debug => {
            proof {
                reveal_strlit("DEBUG");
                assert("DEBUG"@ =~= name_of(sev));
            }
            "DEBUG".to_owned()
        }
        Severity::Trace => {
            proof {
                reveal_strlit("TRACE");
                assert("TRACE"@ =~= name_of(sev));
            }
            "TRACE".to_owned()
        }
    }
}

} // verus!
