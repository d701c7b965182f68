//! The `color_quant` crate's NeuQuant network, kept together with the
//! samples it was trained on so that the palette and the colour lookups can
//! be stated as functions of those samples.

use vstd::prelude::*;

verus! {

#[verifier::external_type_specification]
#[verifier::external_body]
pub struct ExNeuQuant(color_quant::NeuQuant);

/// The colour map (`color_map_rgb`) of the 256-colour NeuQuant network
/// trained with sampling factor 10 on `samples`.
pub uninterp spec fn neuquant_palette(samples: Seq<u8>) -> Seq<u8>;

/// The colour-map position (`index_of`) that the 256-colour NeuQuant network
/// trained with sampling factor 10 on `samples` chooses for the opaque
/// colour `(r, g, b)`.
pub uninterp spec fn neuquant_index(samples: Seq<u8>, r: u8, g: u8, b: u8) -> usize;

/// A trained network and the samples it learned from. Only `train_palette`
/// builds one, so the two always belong together.
pub struct TrainedPalette {
    network: color_quant::NeuQuant,
    samples: Vec<u8>,
}

impl View for TrainedPalette {
    type V = Seq<u8>;

    /// The samples the network was trained on.
    closed spec fn view(&self) -> Seq<u8> {
        self.samples@
    }
}

impl TrainedPalette {
    /// The samples the network was trained on.
    pub fn samples(&self) -> (s: &[u8])
        ensures
            s@ == self@,
    {
        self.samples.as_slice()
    }
}

/// `color_quant::NeuQuant::new(10, 256, samples)`: trains a 256-colour
/// network on the samples (read as four-byte groups, sampling factor 10);
/// the samples are kept beside it.
#[verifier::external_body]
pub fn train_palette(samples: Vec<u8>) -> (t: TrainedPalette)
    ensures
        t@ == samples@,
{
    let network = color_quant::NeuQuant::new(10, 256, &samples);
    TrainedPalette { network, samples }
}

/// `NeuQuant::color_map_rgb`: the colour map, three bytes (red, green,
/// blue) for each of the 256 colours.
#[verifier::external_body]
pub fn palette_rgb(t: &TrainedPalette) -> (p: Vec<u8>)
    ensures
        p@ == neuquant_palette(t@),
        p@.len() == 768,
{
    t.network.color_map_rgb()
}

/// `NeuQuant::index_of(&[r, g, b, 255])`: the position in the 256-colour map
/// of the colour the network chooses for an opaque pixel.
#[verifier::external_body]
pub fn palette_index(t: &TrainedPalette, r: u8, g: u8, b: u8) -> (i: usize)
    ensures
        i == neuquant_index(t@, r, g, b),
        i < 256,
{
    t.network.index_of(&[r, g, b, 255])
}

} // verus!
