//! The camera: pixel-to-ray mapping and the render loop.

use vstd::prelude::*;
use crate::scalar::{Scalar, SCALE, fadd, fsub, fmul, fdiv};
use crate::trig::tan_fx;
use crate::tuple::{Tuple, Point, Vector, TupleV, t_sub, t_normalize};
use crate::matrix::{Matrix4, MatrixError, m4_mul_tuple, m4_det, m4_inverse, m4_identity};
use crate::ray::Ray;
use crate::world::{World, color_at_spec};
use crate::canvas::{Canvas, canvas_wf, canvas_pixels};

verus! {

/// A camera: a pixel grid of a given field of view, placed in the world
/// by a view transform whose inverse is cached.
#[derive(Clone, Copy, Debug, PartialEq, Eq, Structural)]
pub struct Camera {
    pub hsize: u32,
    pub vsize: u32,
    pub field_of_view: Scalar,
    pub half_width: Scalar,
    pub half_height: Scalar,
    pub pixel_size: Scalar,
    pub transform: Matrix4,
    pub inv_transform: Matrix4,
}

/// Half the span of the canvas one unit in front of the camera.
pub open spec fn cam_half_view(fov: int) -> int {
    tan_fx(fdiv(fov, 2 * SCALE))
}

pub open spec fn cam_aspect(hsize: int, vsize: int) -> int {
    fdiv(hsize * SCALE, vsize * SCALE)
}

pub open spec fn cam_half_width(hsize: int, vsize: int, fov: int) -> int {
    if cam_aspect(hsize, vsize) >= SCALE {
        cam_half_view(fov)
    } else {
        fmul(cam_half_view(fov), cam_aspect(hsize, vsize))
    }
}

pub open spec fn cam_half_height(hsize: int, vsize: int, fov: int) -> int {
    if cam_aspect(hsize, vsize) >= SCALE {
        fdiv(cam_half_view(fov), cam_aspect(hsize, vsize))
    } else {
        cam_half_view(fov)
    }
}

/// The world-space width of one pixel.
pub open spec fn cam_pixel_size(hsize: int, vsize: int, fov: int) -> int {
    fdiv(fmul(cam_half_width(hsize, vsize, fov), 2 * SCALE), hsize * SCALE)
}

/// The camera's own position taken into the world.
pub open spec fn cam_ray_origin(c: Camera) -> TupleV {
    m4_mul_tuple(c.inv_transform@, TupleV { x: 0, y: 0, z: 0, w: SCALE as int })
}

/// The center of pixel (x, y) on the canvas at z = -1, taken into the
/// world.
pub open spec fn cam_pixel_point(c: Camera, x: int, y: int) -> TupleV {
    let xoffset = fmul(fadd(x * SCALE, SCALE / 2), c.pixel_size@);
    let yoffset = fmul(fadd(y * SCALE, SCALE / 2), c.pixel_size@);
    let wx = fsub(c.half_width@, xoffset);
    let wy = fsub(c.half_height@, yoffset);
    m4_mul_tuple(c.inv_transform@, TupleV { x: wx, y: wy, z: -(SCALE as int), w: SCALE as int })
}

/// The unit direction from the camera through the center of pixel (x, y).
pub open spec fn cam_ray_direction(c: Camera, x: int, y: int) -> TupleV {
    t_normalize(t_sub(cam_pixel_point(c, x, y), cam_ray_origin(c)))
}

impl Camera {
    /// A camera for an hsize-by-vsize image with the given field of view,
    /// initially untransformed.
    pub fn new(hsize: u32, vsize: u32, field_of_view: Scalar) -> (c: Camera)
        ensures
            c.hsize == hsize,
            c.vsize == vsize,
            c.field_of_view == field_of_view,
            c.half_width@ == cam_half_width(hsize as int, vsize as int, field_of_view@),
            c.half_height@ == cam_half_height(hsize as int, vsize as int, field_of_view@),
            c.pixel_size@ == cam_pixel_size(hsize as int, vsize as int, field_of_view@),
            c.transform@ == m4_identity(),
            c.inv_transform@ == m4_identity(),
    {
        let two = Scalar { raw: 2 * SCALE };
        let half_view = field_of_view.div(two).tan();
        let h = Scalar::from_int(hsize as i64);
        let v = Scalar::from_int(vsize as i64);
        let aspect = h.div(v);
        let (half_width, half_height) = if aspect.raw >= SCALE {
            (half_view, half_view.div(aspect))
        } else {
            (half_view.mul(aspect), half_view)
        };
        let pixel_size = half_width.mul(two).div(h);
        Camera {
            hsize,
            vsize,
            field_of_view,
            half_width,
            half_height,
            pixel_size,
            transform: Matrix4::identity(),
            inv_transform: Matrix4::identity(),
        }
    }

    /// Install a view transform, caching its inverse; fails exactly when
    /// the matrix cannot be inverted, leaving the camera unchanged.
    pub fn set_transform(&mut self, transform: Matrix4) -> (r: Result<(), MatrixError>)
        ensures
            m4_det(transform@) != 0 ==> r is Ok,
            m4_det(transform@) != 0 ==> final(self).transform == transform,
            m4_det(transform@) != 0 ==> final(self).inv_transform@ == m4_inverse(transform@),
            m4_det(transform@) == 0 ==> (r == Err::<(), MatrixError>(MatrixError::NotInvertible)
                && *final(self) == *old(self)),
            final(self).hsize == old(self).hsize,
            final(self).vsize == old(self).vsize,
            final(self).field_of_view == old(self).field_of_view,
            final(self).half_width == old(self).half_width,
            final(self).half_height == old(self).half_height,
            final(self).pixel_size == old(self).pixel_size,
    {
        match transform.inverse() {
            Ok(inv) => {
                self.inv_transform = inv;
                self.transform = transform;
                Ok(())
            },
            Err(e) => Err(e),
        }
    }

    /// The world-space ray through the center of pixel (x, y).
    pub fn ray_for_pixel(&self, x: u32, y: u32) -> (r: Ray)
        ensures
            r.origin@ == cam_ray_origin(*self),
            r.direction@ == cam_ray_direction(*self, x as int, y as int),
    {
        let half = Scalar { raw: SCALE / 2 };
        let xoffset = Scalar::from_int(x as i64).add(half).mul(self.pixel_size);
        let yoffset = Scalar::from_int(y as i64).add(half).mul(self.pixel_size);
        let world_x = self.half_width.sub(xoffset);
        let world_y = self.half_height.sub(yoffset);
        let pixel = self.inv_transform.mul_tuple(
            Tuple::new(world_x, world_y, Scalar { raw: -SCALE }, Scalar::one()),
        );
        let origin = self.inv_transform.mul_tuple(
            Tuple::new(Scalar::zero(), Scalar::zero(), Scalar::zero(), Scalar::one()),
        );
        let direction = pixel.sub(origin).normalize();
        Ray { origin: Point(origin), direction: Vector(direction) }
    }

    /// Render the world: one ray per pixel, row-major, each pixel holding
    /// the color seen along its ray.
    #[verifier::rlimit(100)]
    pub fn render(&self, world: &World) -> (image: Canvas)
        requires
            self.hsize <= isize::MAX,
            self.vsize <= isize::MAX,
            self.hsize * self.vsize <= usize::MAX,
        ensures
            canvas_wf(&image),
            image.width == self.hsize,
            image.height == self.vsize,
            forall|xi: int, yi: int|
                0 <= xi < self.hsize && 0 <= yi < self.vsize ==> canvas_pixels(&image)[yi
                    * self.hsize + xi] == color_at_spec(
                    world.objects@,
                    world.lights@,
                    cam_ray_origin(*self),
                    cam_ray_direction(*self, xi, yi),
                ),
    {
        let w = self.hsize;
        let h = self.vsize;
        let mut image = Canvas::new(w as isize, h as isize);
        let mut y: u32 = 0;
        while y < h
            invariant
                w == self.hsize,
                h == self.vsize,
                canvas_wf(&image),
                image.width == w,
                image.height == h,
                forall|xi: int, yi: int|
                    0 <= xi < w && 0 <= yi < y ==> canvas_pixels(&image)[yi * w + xi]
                        == color_at_spec(
                        world.objects@,
                        world.lights@,
                        cam_ray_origin(*self),
                        cam_ray_direction(*self, xi, yi),
                    ),
            decreases h - y,
        {
            let mut x: u32 = 0;
            while x < w
                invariant
                    w == self.hsize,
                    h == self.vsize,
                    y < h,
                    canvas_wf(&image),
                    image.width == w,
                    image.height == h,
                    forall|xi: int, yi: int|
                        0 <= xi < w && 0 <= yi < y ==> canvas_pixels(&image)[yi * w + xi]
                            == color_at_spec(
                            world.objects@,
                            world.lights@,
                            cam_ray_origin(*self),
                            cam_ray_direction(*self, xi, yi),
                        ),
                    forall|xi: int|
                        0 <= xi < x ==> canvas_pixels(&image)[y * w + xi] == color_at_spec(
                            world.objects@,
                            world.lights@,
                            cam_ray_origin(*self),
                            cam_ray_direction(*self, xi, y as int),
                        ),
                decreases w - x,
            {
                let ray = self.ray_for_pixel(x, y);
                let color = world.color_at(ray);
                let ghost pre = canvas_pixels(&image);
                proof {
                    assert((y as int) * w + x < w * h) by (nonlinear_arith)
                        requires
                            0 <= x < w,
                            0 <= y < h,
                    ;
                    assert(0 <= (y as int) * w) by (nonlinear_arith)
                        requires
                            0 <= y,
                            0 <= w,
                    ;
                }
                image = image.write_pixel(x as isize, y as isize, color);
                proof {
                    assert(canvas_pixels(&image) =~= pre.update((y as int) * w + x, color@));
                    assert forall|xi: int, yi: int|
                        0 <= xi < w && yi == y as int && xi < x + 1 implies canvas_pixels(
                        &image,
                    )[yi * w + xi] == color_at_spec(
                        world.objects@,
                        world.lights@,
                        cam_ray_origin(*self),
                        cam_ray_direction(*self, xi, yi),
                    ) by {
                        if xi < x {
                            assert(yi * w + xi != (y as int) * w + x);
                        }
                    }
                    assert forall|xi: int, yi: int|
                        0 <= xi < w && 0 <= yi < y implies canvas_pixels(&image)[yi * w + xi]
                        == color_at_spec(
                        world.objects@,
                        world.lights@,
                        cam_ray_origin(*self),
                        cam_ray_direction(*self, xi, yi),
                    ) by {
                        assert(yi * w + xi < (y as int) * w + x) by (nonlinear_arith)
                            requires
                                0 <= xi < w,
                                0 <= yi < y,
                                0 <= x,
                        ;
                    }
                }
                x = x + 1;
            }
            y = y + 1;
        }
        image
    }
}

} // verus!
