//! Symbol generation: the external QR-matrix capability, surfaced as a typed
//! grid of dark and light modules.

use vstd::prelude::*;

verus! {

/// What the QR symbol generator produces for a given payload: the square
/// grid of modules (row by row, `true` is a dark module), or `None` where
/// the payload cannot be encoded at any supported symbol version.
pub uninterp spec fn qr_symbol_of(data: Seq<char>) -> Option<Seq<Seq<bool>>>;

/// What the external SVG renderer produces for a given payload and minimum
/// dimension: a self-contained vector document.
pub uninterp spec fn svg_render_of(data: Seq<char>, size: int) -> Seq<char>;

/// An immutable square grid of dark (`true`) and light (`false`) modules,
/// stored row by row.
pub struct SymbolMatrix {
    /// The number of modules per side, without the quiet zone.
    pub width: usize,
    /// The modules, row by row; `width * width` entries.
    pub modules: Vec<bool>,
}

impl SymbolMatrix {
    /// A symbol is square, and its side is that of a standard QR version:
    /// between 21 (version 1) and 177 (version 40) modules.
    pub open spec fn wf(self) -> bool {
        &&& 21 <= self.width <= 177
        &&& self.modules@.len() == self.width * self.width
    }

    /// The grid as a sequence of rows.
    pub open spec fn rows(self) -> Seq<Seq<bool>> {
        Seq::new(
            self.width as nat,
            |i: int| Seq::new(self.width as nat, |j: int| self.modules@[i * self.width + j]),
        )
    }
}

/// Relies on `qrcode::QrCode::new` (medium error correction, smallest
/// fitting version; errors when the data is too long to encode), and on
/// `QrCode::width` and `QrCode::to_colors`: the symbol is a square grid,
/// its side `17 + 4 * version` modules for versions 1 to 40, row-major,
/// a function of the payload bytes alone.
#[verifier::external_body]
pub(crate) fn qr_generate(data: &str) -> (r: Option<SymbolMatrix>)
    ensures
        r is Some <==> qr_symbol_of(data@) is Some,
        r matches Some(m) ==> m.wf() && m.rows() == qr_symbol_of(data@).unwrap(),
{
    match qrcode::QrCode::new(data) {
        Ok(code) => {
            let width = code.width();
            let modules = code
                .into_colors()
                .into_iter()
                .map(|c| match c {
                    qrcode::Color::Dark => true,
                    qrcode::Color::Light => false,
                })
                .collect();
            Some(SymbolMatrix { width, modules })
        },
        Err(_) => None,
    }
}

/// Relies on `qrcode::QrCode::new` (as in the symbol generator) and on the
/// `qrcode::render::svg` renderer with `min_dimensions`: the markup is a
/// deterministic function of the payload and the requested minimum
/// dimension alone, and it succeeds exactly when symbol generation does.
#[verifier::external_body]
pub(crate) fn svg_render(data: &str, size: u32) -> (r: Option<String>)
    ensures
        r is Some <==> qr_symbol_of(data@) is Some,
        r matches Some(s) ==> s@ == svg_render_of(data@, size as int),
{
    match qrcode::QrCode::new(data) {
        Ok(code) => Some(
            code.render::<qrcode::render::svg::Color>().min_dimensions(size, size).build(),
        ),
        Err(_) => None,
    }
}

} // verus!
