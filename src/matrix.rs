use vstd::prelude::*;
use vstd::string::StringExecFns;

use crate::text::has_prefix;

verus! {

/// The QR symbol that the `qrcode` crate builds for a text at error-correction
/// level H: its number of modules per side and its modules in row-major order
/// (`true` for dark), or `None` when the text does not fit.
pub uninterp spec fn level_h_symbol(text: Seq<char>) -> Option<(nat, Seq<bool>)>;

/// Sides of the standard QR versions 1 to 40: 21, 25, ..., 177.
pub open spec fn is_standard_side(side: nat) -> bool {
    21 <= side <= 177 && (side - 17) % 4 == 0
}

/// An immutable square grid of QR modules.
pub struct QrMatrix {
    side: usize,
    modules: Vec<bool>,
}

impl QrMatrix {
    pub closed spec fn side_spec(&self) -> nat {
        self.side as nat
    }

    pub closed spec fn modules_spec(&self) -> Seq<bool> {
        self.modules@
    }

    /// The grid holds `side * side` modules of a standard version.
    pub open spec fn wf(&self) -> bool {
        &&& self.modules_spec().len() == self.side_spec() * self.side_spec()
        &&& is_standard_side(self.side_spec())
    }

    /// Number of modules per side, quiet zone excluded.
    pub fn side(&self) -> (r: usize)
        ensures
            r == self.side_spec(),
    {
        self.side
    }

    /// Whether the module in column `x` of row `y` is dark.
    pub fn is_dark(&self, x: usize, y: usize) -> (r: bool)
        requires
            self.wf(),
            x < self.side_spec(),
            y < self.side_spec(),
        ensures
            r == self.modules_spec()[y * self.side_spec() + x],
    {
        proof {
            let n = self.side as int;
            assert(y * n + x < n * n && n * n <= 177 * 177) by (nonlinear_arith)
                requires
                    x < n,
                    y < n,
                    n <= 177,
            ;
        }
        self.modules[y * self.side + x]
    }

    pub(crate) fn modules(&self) -> (r: &Vec<bool>)
        ensures
            r@ == self.modules_spec(),
    {
        &self.modules
    }
}

/// Relies on qrcode's `QrCode::with_error_correction_level` at `EcLevel::H`:
/// it either fails (its error message is returned) or builds a symbol of a
/// standard version, whose `width` and `to_colors` are copied out.
#[verifier::external_body]
fn qrcode_level_h(text: &str) -> (r: Result<QrMatrix, String>)
    ensures
        r is Ok <==> level_h_symbol(text@) is Some,
        r matches Ok(m) ==> m.wf() && level_h_symbol(text@) == Some(
            (m.side_spec(), m.modules_spec()),
        ),
{
    match qrcode::QrCode::with_error_correction_level(text.as_bytes(), qrcode::EcLevel::H) {
        Ok(code) => Ok(QrMatrix {
            side: code.width(),
            modules: code.to_colors().iter().map(|c| *c == qrcode::Color::Dark).collect(),
        }),
        Err(e) => Err(e.to_string()),
    }
}

/// Start of the message when a text does not fit a QR symbol.
pub open spec fn qr_failure_prefix() -> Seq<char> {
    "Failed to generate the QR code: "@
}

/// Encodes a text as a QR symbol at error-correction level H. Fails exactly
/// when the text exceeds the capacity of that level.
pub fn encode_level_h(text: &str) -> (r: Result<QrMatrix, crate::error::Error>)
    ensures
        r is Ok <==> level_h_symbol(text@) is Some,
        r matches Ok(m) ==> m.wf() && level_h_symbol(text@) == Some(
            (m.side_spec(), m.modules_spec()),
        ),
        r matches Err(e) ==> (e matches crate::error::Error::QrCode(m) && has_prefix(m@, qr_failure_prefix())),
{
    match qrcode_level_h(text) {
        Ok(m) => Ok(m),
        Err(detail) => {
            let mut m = String::from_str("Failed to generate the QR code: ");
            let ghost prefix = m@;
            m.append(detail.as_str());
            proof {
                reveal_strlit("Failed to generate the QR code: ");
                assert(m@.subrange(0, prefix.len() as int) =~= prefix);
            }
            Err(crate::error::Error::QrCode(m))
        },
    }
}

} // verus!
