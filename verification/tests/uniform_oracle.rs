use encase::internal::{BufferMut, WriteInto, Writer};
use encase::private::{AlignmentValue, Metadata, SizeValue, StructMetadata};
use encase::{ShaderType, UniformBuffer};
use wgpu_sandbox::examples::{mandelbrot, triangle};
use wgpu_sandbox::gpu::app::GpuApplication;
use wgpu_sandbox::layout::{serialize, UniformValue};
use wgpu_sandbox::scalar::{Vec2, Vec4};

/// The layout that encase gives a struct with fields of these alignments
/// and sizes.
const fn struct_metadata<const N: usize>(
    alignments: [AlignmentValue; N],
    sizes: [u64; N],
) -> Metadata<StructMetadata<N>> {
    let struct_alignment = AlignmentValue::max(alignments);
    let mut paddings = [0; N];
    let mut offsets = [0; N];
    let mut offset = 0;
    let mut index = 0;
    while index < N {
        if index > 0 {
            offsets[index] = alignments[index].round_up(offset);
            let padding = alignments[index].padding_needed_for(offset);
            offset += padding;
            paddings[index - 1] = padding;
        }
        offset += sizes[index];
        index += 1;
    }
    paddings[N - 1] = struct_alignment.padding_needed_for(offset);
    let min_size = SizeValue::new(struct_alignment.round_up(offsets[N - 1] + sizes[N - 1]));
    Metadata {
        alignment: struct_alignment,
        has_uniform_min_alignment: true,
        min_size,
        extra: StructMetadata { offsets, paddings },
    }
}

fn written<T: ShaderType + WriteInto>(value: &T) -> Vec<u8> {
    let mut buffer = UniformBuffer::new(Vec::new());
    buffer.write(value).unwrap();
    buffer.into_inner()
}

/// The Mandelbrot demo's record as encase lays it out.
struct Location {
    cursor_pos: glam::Vec2,
    zoom: f32,
    max_iterations: u32,
}

impl ShaderType for Location {
    type ExtraMetadata = StructMetadata<3>;

    const METADATA: Metadata<Self::ExtraMetadata> = struct_metadata(
        [
            <glam::Vec2 as ShaderType>::METADATA.alignment(),
            <f32 as ShaderType>::METADATA.alignment(),
            <u32 as ShaderType>::METADATA.alignment(),
        ],
        [
            <glam::Vec2 as ShaderType>::METADATA.min_size().get(),
            <f32 as ShaderType>::METADATA.min_size().get(),
            <u32 as ShaderType>::METADATA.min_size().get(),
        ],
    );
}

impl WriteInto for Location {
    fn write_into<B: BufferMut>(&self, writer: &mut Writer<B>) {
        self.cursor_pos.write_into(writer);
        writer.advance(Self::METADATA.padding(0) as usize);
        self.zoom.write_into(writer);
        writer.advance(Self::METADATA.padding(1) as usize);
        self.max_iterations.write_into(writer);
        writer.advance(Self::METADATA.padding(2) as usize);
    }
}

/// A record with padding before two of its fields.
struct Padded {
    count: u32,
    point: glam::Vec2,
    scale: f32,
    color: glam::Vec4,
}

impl ShaderType for Padded {
    type ExtraMetadata = StructMetadata<4>;

    const METADATA: Metadata<Self::ExtraMetadata> = struct_metadata(
        [
            <u32 as ShaderType>::METADATA.alignment(),
            <glam::Vec2 as ShaderType>::METADATA.alignment(),
            <f32 as ShaderType>::METADATA.alignment(),
            <glam::Vec4 as ShaderType>::METADATA.alignment(),
        ],
        [
            <u32 as ShaderType>::METADATA.min_size().get(),
            <glam::Vec2 as ShaderType>::METADATA.min_size().get(),
            <f32 as ShaderType>::METADATA.min_size().get(),
            <glam::Vec4 as ShaderType>::METADATA.min_size().get(),
        ],
    );
}

impl WriteInto for Padded {
    fn write_into<B: BufferMut>(&self, writer: &mut Writer<B>) {
        self.count.write_into(writer);
        writer.advance(Self::METADATA.padding(0) as usize);
        self.point.write_into(writer);
        writer.advance(Self::METADATA.padding(1) as usize);
        self.scale.write_into(writer);
        writer.advance(Self::METADATA.padding(2) as usize);
        self.color.write_into(writer);
        writer.advance(Self::METADATA.padding(3) as usize);
    }
}

fn views() -> Vec<(f32, f32, f32, u32)> {
    vec![
        (0.0, 0.0, 1.0, 50),
        (-0.75, 0.1, 1.1, 53),
        (1.5e-3, -2.5e7, 1.0e12, 0),
        (f32::MIN_POSITIVE, f32::MAX, f32::INFINITY, u32::MAX),
        (-0.0, 3.25, 2.0, 0x0102_0304),
    ]
}

#[test]
fn the_view_is_laid_out_as_encase_lays_it_out() {
    for (x, y, zoom, max_iterations) in views() {
        let expected = written(&Location { cursor_pos: glam::Vec2::new(x, y), zoom, max_iterations });
        let state = mandelbrot::AppState {
            cursor_pos: Vec2 { x: x.to_bits(), y: y.to_bits() },
            zoom: zoom.to_bits(),
            max_iterations,
        };
        assert_eq!(state.as_wgsl_bytes().unwrap(), expected);
        assert_eq!(expected.len(), 16);
    }
}

#[test]
fn the_color_is_laid_out_as_encase_lays_it_out() {
    for (x, y, z, w) in [(0.0f32, 0.0f32, 0.0f32, 0.0f32), (0.25, 0.5, 0.75, 1.0), (-1.0, 2.0, -3.0, 4.0)] {
        let expected = written(&glam::Vec4::new(x, y, z, w));
        let state = triangle::AppState {
            color: Vec4 { x: x.to_bits(), y: y.to_bits(), z: z.to_bits(), w: w.to_bits() },
        };
        assert_eq!(state.as_wgsl_bytes().unwrap(), expected);
    }
}

#[test]
fn padding_falls_where_encase_puts_it() {
    let expected = written(&Padded {
        count: 0xdead_beef,
        point: glam::Vec2::new(1.0, -1.0),
        scale: 0.5,
        color: glam::Vec4::new(0.1, 0.2, 0.3, 0.4),
    });
    let values = vec![
        UniformValue::Uint(0xdead_beef),
        UniformValue::Vec2(1.0f32.to_bits(), (-1.0f32).to_bits()),
        UniformValue::Float(0.5f32.to_bits()),
        UniformValue::Vec4(
            0.1f32.to_bits(),
            0.2f32.to_bits(),
            0.3f32.to_bits(),
            0.4f32.to_bits(),
        ),
    ];
    assert_eq!(serialize(&values).unwrap(), expected);
    assert_eq!(expected.len(), 48);
}

#[test]
fn a_record_is_rounded_up_to_sixteen_bytes() {
    // Alone in a buffer, a scalar or a two-component vector takes its own
    // size. As a record it is followed by zeros up to sixteen bytes.
    let bytes = serialize(&vec![UniformValue::Float(2.5f32.to_bits())]).unwrap();
    assert_eq!(bytes.len(), 16);
    assert_eq!(&bytes[0..4], written(&2.5f32).as_slice());
    assert_eq!(&bytes[4..], &[0u8; 12]);

    let bytes = serialize(&vec![UniformValue::Uint(77)]).unwrap();
    assert_eq!(&bytes[0..4], written(&77u32).as_slice());
    assert_eq!(&bytes[4..], &[0u8; 12]);

    let bytes = serialize(&vec![UniformValue::Vec2(1.0f32.to_bits(), 2.0f32.to_bits())]).unwrap();
    assert_eq!(&bytes[0..8], written(&glam::Vec2::new(1.0, 2.0)).as_slice());
    assert_eq!(&bytes[8..], &[0u8; 8]);
}
