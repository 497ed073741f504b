use mvengine::rendering::batch::{
    RenderBatch, BATCH_INDEX_AMOUNT, BATCH_VERTEX_AMOUNT, COLOR_OFFSET, COLOR_OFFSET_BYTES,
    HAS_TEXTURE_OFFSET, HAS_TEXTURE_OFFSET_BYTES, MAX_TEXTURES, POSITION_OFFSET, TEXTURE_OFFSET,
    TEXTURE_OFFSET_BYTES, UV_OFFSET, UV_OFFSET_BYTES, VERTEX_SIZE, VERTEX_SIZE_BYTES,
};
use mvengine::rendering::{Quad, Triangle, Vertex};

fn word(x: f32) -> u32 {
    x.to_bits()
}

fn plain(x: f32, y: f32, z: f32) -> Vertex {
    Vertex {
        pos: (word(x), word(y), word(z)),
        color: (word(1.0), word(1.0), word(1.0), word(1.0)),
        uv: (word(0.0), word(0.0)),
        texture: 0,
        has_texture: false,
    }
}

fn textured(texture: u32) -> Vertex {
    Vertex {
        pos: (word(1.0), word(2.0), word(3.0)),
        color: (word(0.5), word(0.25), word(0.125), word(1.0)),
        uv: (word(0.0), word(1.0)),
        texture,
        has_texture: true,
    }
}

fn plain_triangle() -> Triangle {
    Triangle { points: [plain(0.0, 0.0, 0.0), plain(0.0, 1.0, 0.0), plain(1.0, 1.0, 0.0)] }
}

fn plain_quad() -> Quad {
    Quad {
        points: [
            plain(0.0, 0.0, 0.0),
            plain(0.0, 1.0, 0.0),
            plain(1.0, 1.0, 0.0),
            plain(1.0, 0.0, 0.0),
        ],
    }
}

fn triangle_with(a: u32, b: u32, c: u32) -> Triangle {
    Triangle { points: [textured(a), textured(b), textured(c)] }
}

#[test]
fn layout_constants() {
    assert_eq!(POSITION_OFFSET, 0);
    assert_eq!(COLOR_OFFSET, 3);
    assert_eq!(UV_OFFSET, 7);
    assert_eq!(TEXTURE_OFFSET, 9);
    assert_eq!(HAS_TEXTURE_OFFSET, 10);
    assert_eq!(COLOR_OFFSET_BYTES, 12);
    assert_eq!(UV_OFFSET_BYTES, 28);
    assert_eq!(TEXTURE_OFFSET_BYTES, 36);
    assert_eq!(HAS_TEXTURE_OFFSET_BYTES, 40);
    assert_eq!(VERTEX_SIZE, 11);
    assert_eq!(VERTEX_SIZE_BYTES, 44);
    assert_eq!(BATCH_VERTEX_AMOUNT, 1000);
    assert_eq!(BATCH_INDEX_AMOUNT, 6000);
    assert_eq!(MAX_TEXTURES, 16);
}

#[test]
fn new_batch_is_empty() {
    let batch = RenderBatch::new(7);
    assert!(batch.is_empty());
    assert_eq!(batch.vertex_index(), 0);
    assert_eq!(batch.vertex_count(), 0);
    assert_eq!(batch.index_index(), 0);
    assert_eq!(batch.texture_index(), 0);
    assert_eq!(batch.triangle_index(), 0);
    assert_eq!(batch.buffers(), (0, 0));
}

#[test]
fn round_trip_of_one_triangle() {
    let mut batch = RenderBatch::new(7);
    let triangle = plain_triangle();
    assert!(batch.can_hold_triangle(&triangle));
    batch.push_triangle(triangle);
    assert!(!batch.is_empty());
    assert_eq!(batch.vertex_index(), 3 * VERTEX_SIZE);
    assert_eq!(batch.vertex_count(), 3);
    assert_eq!(batch.index_index(), 3);
    assert_eq!(batch.texture_index(), 0);
    assert_eq!(batch.triangle_index(), 1);

    batch.set_buffers(11, 12);
    let call = batch.draw();
    assert_eq!(call.vertices.len(), 3 * VERTEX_SIZE);
    assert_eq!(call.indices, vec![0, 1, 2]);
    assert_eq!(call.textures, Vec::<u32>::new());
    assert_eq!(call.amount, 3);
    assert_eq!(call.vbo, 11);
    assert_eq!(call.ibo, 12);
    assert_eq!(call.shader, 7);
    assert_eq!(call.target, None);
    let one = word(1.0);
    let zero = word(0.0);
    assert_eq!(
        call.vertices,
        vec![
            zero, zero, zero, one, one, one, one, zero, zero, 0, 0, //
            zero, one, zero, one, one, one, one, zero, zero, 0, 0, //
            one, one, zero, one, one, one, one, zero, zero, 0, 0,
        ]
    );
    assert!(batch.is_empty());
    assert_eq!(batch.vertex_count(), 0);
    assert_eq!(batch.index_index(), 0);
    assert_eq!(batch.triangle_index(), 0);
    assert_eq!(batch.buffers(), (11, 12));
}

#[test]
fn record_follows_the_layout() {
    let mut batch = RenderBatch::new(1);
    let v = Vertex {
        pos: (10, 11, 12),
        color: (20, 21, 22, 23),
        uv: (30, 31),
        texture: 40,
        has_texture: true,
    };
    batch.push_triangle(Triangle { points: [v, v, v] });
    let call = batch.draw();
    for record in 0..3 {
        let base = record * VERTEX_SIZE;
        assert_eq!(call.vertices[base + POSITION_OFFSET], 10);
        assert_eq!(call.vertices[base + POSITION_OFFSET + 1], 11);
        assert_eq!(call.vertices[base + POSITION_OFFSET + 2], 12);
        assert_eq!(call.vertices[base + COLOR_OFFSET], 20);
        assert_eq!(call.vertices[base + COLOR_OFFSET + 3], 23);
        assert_eq!(call.vertices[base + UV_OFFSET], 30);
        assert_eq!(call.vertices[base + UV_OFFSET + 1], 31);
        assert_eq!(call.vertices[base + TEXTURE_OFFSET], 40);
        assert_eq!(call.vertices[base + HAS_TEXTURE_OFFSET], 1);
    }
    assert_eq!(call.textures, vec![40]);
}

#[test]
fn quad_indices_follow_the_triangle_counter() {
    let mut batch = RenderBatch::new(1);
    batch.push_quad(plain_quad());
    assert_eq!(batch.vertex_count(), 4);
    assert_eq!(batch.index_index(), 6);
    assert_eq!(batch.triangle_index(), 2);
    batch.push_triangle(plain_triangle());
    assert_eq!(batch.triangle_index(), 3);
    batch.push_quad(plain_quad());
    assert_eq!(batch.vertex_count(), 11);
    assert_eq!(batch.index_index(), 15);
    assert_eq!(batch.triangle_index(), 5);
    let call = batch.draw();
    assert_eq!(call.indices, vec![0, 1, 2, 2, 3, 0, 2, 3, 4, 3, 4, 5, 5, 6, 3]);
    assert_eq!(call.amount, 15);
    assert_eq!(call.vertices.len(), 11 * VERTEX_SIZE);
}

#[test]
fn every_index_names_a_written_vertex() {
    let mut batch = RenderBatch::new(1);
    for i in 0..100 {
        if i % 3 == 0 {
            batch.push_quad(plain_quad());
        } else {
            batch.push_triangle(plain_triangle());
        }
    }
    let written = batch.vertex_count() as u32;
    let call = batch.draw();
    assert!(call.indices.iter().all(|index| *index < written));
}

#[test]
fn resident_texture_takes_no_slot() {
    let mut batch = RenderBatch::new(1);
    batch.push_triangle(triangle_with(5, 5, 5));
    assert_eq!(batch.texture_index(), 1);
    batch.push_triangle(triangle_with(5, 5, 5));
    assert_eq!(batch.texture_index(), 1);
    batch.push_quad(Quad { points: [textured(5), textured(5), plain(0.0, 0.0, 0.0), textured(5)] });
    assert_eq!(batch.texture_index(), 1);
    let call = batch.draw();
    assert_eq!(call.textures, vec![5]);
}

#[test]
fn new_textures_take_one_slot_each() {
    let mut batch = RenderBatch::new(1);
    batch.push_triangle(triangle_with(1, 2, 3));
    assert_eq!(batch.texture_index(), 3);
    batch.push_triangle(triangle_with(3, 4, 4));
    assert_eq!(batch.texture_index(), 4);
    batch.push_quad(Quad { points: [textured(9), textured(8), textured(9), textured(1)] });
    assert_eq!(batch.texture_index(), 6);
    let call = batch.draw();
    assert_eq!(call.textures, vec![1, 2, 3, 4, 9, 8]);
    assert_eq!(batch.texture_index(), 0);
}

#[test]
fn texture_zero_is_a_texture_like_any_other() {
    let mut batch = RenderBatch::new(1);
    batch.push_triangle(triangle_with(0, 0, 0));
    assert_eq!(batch.texture_index(), 1);
    let call = batch.draw();
    assert_eq!(call.textures, vec![0]);
}

#[test]
fn untextured_vertex_takes_no_slot_whatever_its_texture_field() {
    let mut batch = RenderBatch::new(1);
    let mut v = plain(0.0, 0.0, 0.0);
    v.texture = 77;
    batch.push_triangle(Triangle { points: [v, v, v] });
    assert_eq!(batch.texture_index(), 0);
    let call = batch.draw();
    assert_eq!(call.vertices[TEXTURE_OFFSET], 77);
    assert_eq!(call.vertices[HAS_TEXTURE_OFFSET], 0);
}

#[test]
fn texture_slots_run_out() {
    let mut batch = RenderBatch::new(1);
    for k in 0..5 {
        let t = triangle_with(3 * k, 3 * k + 1, 3 * k + 2);
        assert!(batch.can_hold_triangle(&t));
        batch.push_triangle(t);
    }
    assert_eq!(batch.texture_index(), 15);
    // one slot left: two new ids do not fit, one does, resident ones always do
    assert!(!batch.can_hold_triangle(&triangle_with(100, 101, 0)));
    assert!(batch.can_hold_triangle(&triangle_with(100, 100, 0)));
    assert!(!batch.can_hold_quad(&Quad {
        points: [textured(100), textured(1), textured(101), textured(100)]
    }));
    batch.push_triangle(triangle_with(100, 100, 0));
    assert_eq!(batch.texture_index(), MAX_TEXTURES);
    assert!(!batch.can_hold_triangle(&triangle_with(200, 0, 0)));
    assert!(batch.can_hold_triangle(&triangle_with(100, 14, 0)));
    assert!(batch.can_hold_triangle(&plain_triangle()));
    assert!(batch.can_hold_quad(&plain_quad()));
}

#[test]
fn after_a_reset_no_texture_is_resident() {
    let mut batch = RenderBatch::new(1);
    batch.push_triangle(triangle_with(1, 2, 3));
    batch.prepare_batch();
    assert!(batch.is_empty());
    assert_eq!(batch.texture_index(), 0);
    batch.push_triangle(triangle_with(3, 3, 3));
    assert_eq!(batch.texture_index(), 1);
    assert_eq!(batch.draw().textures, vec![3]);
}

#[test]
fn vertex_boundary_is_exact() {
    let mut batch = RenderBatch::new(1);
    for _ in 0..330 {
        batch.push_triangle(plain_triangle());
    }
    batch.push_quad(plain_quad());
    assert_eq!(batch.vertex_count(), BATCH_VERTEX_AMOUNT - 6);
    assert!(batch.can_hold_quad(&plain_quad()));
    assert!(batch.can_hold_triangle(&plain_triangle()));

    let mut short_by_three = RenderBatch::new(1);
    for _ in 0..331 {
        short_by_three.push_triangle(plain_triangle());
    }
    short_by_three.push_quad(plain_quad());
    assert_eq!(short_by_three.vertex_count(), BATCH_VERTEX_AMOUNT - 3);
    assert!(short_by_three.can_hold_triangle(&plain_triangle()));
    assert!(!short_by_three.can_hold_quad(&plain_quad()));

    batch.push_quad(plain_quad());
    assert_eq!(batch.vertex_count(), BATCH_VERTEX_AMOUNT - 2);
    assert!(!batch.can_hold_quad(&plain_quad()));
    assert!(!batch.can_hold_triangle(&plain_triangle()));
}

#[test]
fn batch_fills_to_the_last_slot() {
    let mut batch = RenderBatch::new(1);
    for _ in 0..250 {
        assert!(batch.can_hold_quad(&plain_quad()));
        batch.push_quad(plain_quad());
    }
    assert_eq!(batch.vertex_count(), BATCH_VERTEX_AMOUNT);
    assert_eq!(batch.vertex_index(), BATCH_VERTEX_AMOUNT * VERTEX_SIZE);
    assert_eq!(batch.index_index(), 1500);
    assert!(!batch.can_hold_quad(&plain_quad()));
    assert!(!batch.can_hold_triangle(&plain_triangle()));
    let call = batch.draw();
    assert_eq!(call.vertices.len(), VERTEX_SIZE * BATCH_VERTEX_AMOUNT);
    assert_eq!(call.amount, 1500);
}

#[test]
fn admitted_pushes_stay_within_capacity() {
    let mut batch = RenderBatch::new(1);
    let mut k: u32 = 0;
    loop {
        let t = triangle_with(k % 20, (k + 1) % 20, k % 7);
        if !batch.can_hold_triangle(&t) {
            break;
        }
        batch.push_triangle(t);
        assert!(batch.vertex_count() <= BATCH_VERTEX_AMOUNT);
        assert!(batch.texture_index() <= MAX_TEXTURES);
        k += 1;
    }
    assert!(k > 0);
}

#[test]
fn draw_to_target_names_the_target() {
    let mut batch = RenderBatch::new(3);
    batch.push_triangle(plain_triangle());
    let call = batch.draw_to_target(42);
    assert_eq!(call.target, Some(42));
    assert_eq!(call.amount, 3);
    assert!(batch.is_empty());
}
