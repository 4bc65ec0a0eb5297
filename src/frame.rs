use vstd::prelude::*;

verus! {

/// One drawing step of a frame.
#[derive(Clone, Copy, Debug, PartialEq, Eq, Structural)]
pub enum Layer {
    /// Fill the target with the background.
    Clear,
    /// Build the axes over the fixed cube, install the view transform, draw the frame.
    Axes,
    /// The three axis-label glyphs.
    AxisLabels,
    /// The fixed screens, as translucent quads.
    Screens,
    /// The ground-truth point cloud.
    Real,
    /// The selected angle's mirror quad.
    Mirror,
    /// The ideal reflected point cloud.
    Emulator,
    /// The quantized reflected point cloud.
    Led,
    /// The bordered box of legend entries.
    LegendBox,
}

/// The drawing steps of one frame, in order; the mirror is drawn only where an
/// angle is selected.
pub open spec fn frame_plan(angle_selected: bool) -> Seq<Layer> {
    seq![Layer::Clear, Layer::Axes, Layer::AxisLabels, Layer::Screens, Layer::Real] + (if angle_selected {
        seq![Layer::Mirror]
    } else {
        Seq::empty()
    }) + seq![Layer::Emulator, Layer::Led, Layer::LegendBox]
}

/// How opaque a layer is drawn, in percent.
pub open spec fn opacity_of(l: Layer) -> u32 {
    match l {
        Layer::Screens => 80,
        Layer::Real => 20,
        Layer::Mirror => 20,
        Layer::Emulator => 30,
        Layer::Led => 80,
        _ => 100,
    }
}

/// Whether a layer has an entry in the legend box.
pub open spec fn has_legend_spec(l: Layer) -> bool {
    match l {
        Layer::Screens | Layer::Real | Layer::Mirror | Layer::Emulator => true,
        _ => false,
    }
}

/// Whether a layer draws a point cloud.
pub open spec fn is_point_cloud(l: Layer) -> bool {
    match l {
        Layer::Real | Layer::Emulator | Layer::Led => true,
        _ => false,
    }
}

/// The drawing steps of one frame, in order.
pub fn frame_layers(angle_selected: bool) -> (r: Vec<Layer>)
    ensures
        r@ == frame_plan(angle_selected),
{
    let mut layers: Vec<Layer> = vec![
        Layer::Clear,
        Layer::Axes,
        Layer::AxisLabels,
        Layer::Screens,
        Layer::Real,
    ];
    if angle_selected {
        layers.push(Layer::Mirror);
    }
    layers.push(Layer::Emulator);
    layers.push(Layer::Led);
    layers.push(Layer::LegendBox);
    proof {
        assert(layers@ =~= frame_plan(angle_selected));
    }
    layers
}

/// How opaque `l` is drawn, in percent.
pub fn layer_opacity_percent(l: Layer) -> (r: u32)
    ensures
        r == opacity_of(l),
{
    match l {
        Layer::Screens => 80,
        Layer::Real => 20,
        Layer::Mirror => 20,
        Layer::Emulator => 30,
        Layer::Led => 80,
        _ => 100,
    }
}

/// The legend label of `l`, or `None` where it has no legend entry.
pub fn legend_label(l: Layer) -> (r: Option<&'static str>)
    ensures
        r is Some <==> has_legend_spec(l),
        l is Screens ==> r == Some("SCREEN"),
        l is Real ==> r == Some("REAL"),
        l is Mirror ==> r == Some("MIRROR"),
        l is Emulator ==> r == Some("EMULATOR"),
{
    match l {
        Layer::Screens => Some("SCREEN"),
        Layer::Real => Some("REAL"),
        Layer::Mirror => Some("MIRROR"),
        Layer::Emulator => Some("EMULATOR"),
        _ => None,
    }
}

/// In every frame the quantized cloud is the last point cloud drawn and the most
/// opaque one, and the ideal cloud is drawn before it, less opaque, with a legend
/// entry that the quantized cloud lacks; the mirror is drawn only for a selected angle.
pub proof fn lemma_frame_layering(angle_selected: bool)
    ensures
        ({
            let plan = frame_plan(angle_selected);
            let led = plan.len() - 2;
            let emu = plan.len() - 3;
            &&& plan[led] == Layer::Led
            &&& plan[emu] == Layer::Emulator
            &&& forall|i: int|
                led < i < plan.len() ==> !is_point_cloud(#[trigger] plan[i])
            &&& forall|i: int|
                0 <= i < plan.len() && is_point_cloud(#[trigger] plan[i]) ==> opacity_of(plan[i])
                    <= opacity_of(Layer::Led)
            &&& opacity_of(Layer::Emulator) < opacity_of(Layer::Led)
            &&& has_legend_spec(Layer::Emulator) && !has_legend_spec(Layer::Led)
            &&& plan.contains(Layer::Mirror) == angle_selected
        }),
{
    let plan = frame_plan(angle_selected);
    if angle_selected {
        assert(plan[5] == Layer::Mirror);
    } else {
        assert forall|i: int| 0 <= i < plan.len() implies plan[i] != Layer::Mirror by {}
    }
}

} // verus!
