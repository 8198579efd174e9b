//! The outer product, written out coefficient by coefficient.

use vstd::prelude::*;
use crate::field::Field;
use crate::r410::products::partial_sum;
use crate::r410::products::Product;
use crate::r410::R410;

verus! {

impl<T: Field> R410<T> {
    /// The outer product, `self ^ b`: it joins two objects into the one through both.
    pub fn bitxor(self, b: R410<T>) -> (r: Self)
        ensures
            r == self.outer_spec(b),
    {
        let a = self;
        Self {
            s: outer_s(&a, &b),
            e1: outer_e1(&a, &b),
            e2: outer_e2(&a, &b),
            e3: outer_e3(&a, &b),
            ep: outer_ep(&a, &b),
            en: outer_en(&a, &b),
            e12: outer_e12(&a, &b),
            e13: outer_e13(&a, &b),
            e1p: outer_e1p(&a, &b),
            e1n: outer_e1n(&a, &b),
            e23: outer_e23(&a, &b),
            e2p: outer_e2p(&a, &b),
            e2n: outer_e2n(&a, &b),
            e3p: outer_e3p(&a, &b),
            e3n: outer_e3n(&a, &b),
            epn: outer_epn(&a, &b),
            e123: outer_e123(&a, &b),
            e12p: outer_e12p(&a, &b),
            e12n: outer_e12n(&a, &b),
            e13p: outer_e13p(&a, &b),
            e13n: outer_e13n(&a, &b),
            e1pn: outer_e1pn(&a, &b),
            e23p: outer_e23p(&a, &b),
            e23n: outer_e23n(&a, &b),
            e2pn: outer_e2pn(&a, &b),
            e3pn: outer_e3pn(&a, &b),
            e123p: outer_e123p(&a, &b),
            e123n: outer_e123n(&a, &b),
            e12pn: outer_e12pn(&a, &b),
            e13pn: outer_e13pn(&a, &b),
            e23pn: outer_e23pn(&a, &b),
            e123pn: outer_e123pn(&a, &b),
        }
    }
}

/// The coefficient of `1` in the outer product of `a` and `b`.
fn outer_s<T: Field>(a: &R410<T>, b: &R410<T>) -> (r: T)
    ensures
        r == partial_sum(Product::Outer, *a, *b, 0, 31),
{
    let r = b.s.mul(a.s);
    assert(r == partial_sum(Product::Outer, *a, *b, 0, 0));
    assert(r == partial_sum(Product::Outer, *a, *b, 0, 1));
    assert(r == partial_sum(Product::Outer, *a, *b, 0, 2));
    assert(r == partial_sum(Product::Outer, *a, *b, 0, 3));
    assert(r == partial_sum(Product::Outer, *a, *b, 0, 4));
    assert(r == partial_sum(Product::Outer, *a, *b, 0, 5));
    assert(r == partial_sum(Product::Outer, *a, *b, 0, 6));
    assert(r == partial_sum(Product::Outer, *a, *b, 0, 7));
    assert(r == partial_sum(Product::Outer, *a, *b, 0, 8));
    assert(r == partial_sum(Product::Outer, *a, *b, 0, 9));
    assert(r == partial_sum(Product::Outer, *a, *b, 0, 10));
    assert(r == partial_sum(Product::Outer, *a, *b, 0, 11));
    assert(r == partial_sum(Product::Outer, *a, *b, 0, 12));
    assert(r == partial_sum(Product::Outer, *a, *b, 0, 13));
    assert(r == partial_sum(Product::Outer, *a, *b, 0, 14));
    assert(r == partial_sum(Product::Outer, *a, *b, 0, 15));
    assert(r == partial_sum(Product::Outer, *a, *b, 0, 16));
    assert(r == partial_sum(Product::Outer, *a, *b, 0, 17));
    assert(r == partial_sum(Product::Outer, *a, *b, 0, 18));
    assert(r == partial_sum(Product::Outer, *a, *b, 0, 19));
    assert(r == partial_sum(Product::Outer, *a, *b, 0, 20));
    assert(r == partial_sum(Product::Outer, *a, *b, 0, 21));
    assert(r == partial_sum(Product::Outer, *a, *b, 0, 22));
    assert(r == partial_sum(Product::Outer, *a, *b, 0, 23));
    assert(r == partial_sum(Product::Outer, *a, *b, 0, 24));
    assert(r == partial_sum(Product::Outer, *a, *b, 0, 25));
    assert(r == partial_sum(Product::Outer, *a, *b, 0, 26));
    assert(r == partial_sum(Product::Outer, *a, *b, 0, 27));
    assert(r == partial_sum(Product::Outer, *a, *b, 0, 28));
    assert(r == partial_sum(Product::Outer, *a, *b, 0, 29));
    assert(r == partial_sum(Product::Outer, *a, *b, 0, 30));
    assert(r == partial_sum(Product::Outer, *a, *b, 0, 31));
    r
}

/// The coefficient of `e1` in the outer product of `a` and `b`.
fn outer_e1<T: Field>(a: &R410<T>, b: &R410<T>) -> (r: T)
    ensures
        r == partial_sum(Product::Outer, *a, *b, 1, 31),
{
    let r = b.e1.mul(a.s);
    assert(r == partial_sum(Product::Outer, *a, *b, 1, 0));
    let r = r.add(b.s.mul(a.e1));
    assert(r == partial_sum(Product::Outer, *a, *b, 1, 1));
    assert(r == partial_sum(Product::Outer, *a, *b, 1, 2));
    assert(r == partial_sum(Product::Outer, *a, *b, 1, 3));
    assert(r == partial_sum(Product::Outer, *a, *b, 1, 4));
    assert(r == partial_sum(Product::Outer, *a, *b, 1, 5));
    assert(r == partial_sum(Product::Outer, *a, *b, 1, 6));
    assert(r == partial_sum(Product::Outer, *a, *b, 1, 7));
    assert(r == partial_sum(Product::Outer, *a, *b, 1, 8));
    assert(r == partial_sum(Product::Outer, *a, *b, 1, 9));
    assert(r == partial_sum(Product::Outer, *a, *b, 1, 10));
    assert(r == partial_sum(Product::Outer, *a, *b, 1, 11));
    assert(r == partial_sum(Product::Outer, *a, *b, 1, 12));
    assert(r == partial_sum(Product::Outer, *a, *b, 1, 13));
    assert(r == partial_sum(Product::Outer, *a, *b, 1, 14));
    assert(r == partial_sum(Product::Outer, *a, *b, 1, 15));
    assert(r == partial_sum(Product::Outer, *a, *b, 1, 16));
    assert(r == partial_sum(Product::Outer, *a, *b, 1, 17));
    assert(r == partial_sum(Product::Outer, *a, *b, 1, 18));
    assert(r == partial_sum(Product::Outer, *a, *b, 1, 19));
    assert(r == partial_sum(Product::Outer, *a, *b, 1, 20));
    assert(r == partial_sum(Product::Outer, *a, *b, 1, 21));
    assert(r == partial_sum(Product::Outer, *a, *b, 1, 22));
    assert(r == partial_sum(Product::Outer, *a, *b, 1, 23));
    assert(r == partial_sum(Product::Outer, *a, *b, 1, 24));
    assert(r == partial_sum(Product::Outer, *a, *b, 1, 25));
    assert(r == partial_sum(Product::Outer, *a, *b, 1, 26));
    assert(r == partial_sum(Product::Outer, *a, *b, 1, 27));
    assert(r == partial_sum(Product::Outer, *a, *b, 1, 28));
    assert(r == partial_sum(Product::Outer, *a, *b, 1, 29));
    assert(r == partial_sum(Product::Outer, *a, *b, 1, 30));
    assert(r == partial_sum(Product::Outer, *a, *b, 1, 31));
    r
}

/// The coefficient of `e2` in the outer product of `a` and `b`.
fn outer_e2<T: Field>(a: &R410<T>, b: &R410<T>) -> (r: T)
    ensures
        r == partial_sum(Product::Outer, *a, *b, 2, 31),
{
    let r = b.e2.mul(a.s);
    assert(r == partial_sum(Product::Outer, *a, *b, 2, 0));
    assert(r == partial_sum(Product::Outer, *a, *b, 2, 1));
    let r = r.add(b.s.mul(a.e2));
    assert(r == partial_sum(Product::Outer, *a, *b, 2, 2));
    assert(r == partial_sum(Product::Outer, *a, *b, 2, 3));
    assert(r == partial_sum(Product::Outer, *a, *b, 2, 4));
    assert(r == partial_sum(Product::Outer, *a, *b, 2, 5));
    assert(r == partial_sum(Product::Outer, *a, *b, 2, 6));
    assert(r == partial_sum(Product::Outer, *a, *b, 2, 7));
    assert(r == partial_sum(Product::Outer, *a, *b, 2, 8));
    assert(r == partial_sum(Product::Outer, *a, *b, 2, 9));
    assert(r == partial_sum(Product::Outer, *a, *b, 2, 10));
    assert(r == partial_sum(Product::Outer, *a, *b, 2, 11));
    assert(r == partial_sum(Product::Outer, *a, *b, 2, 12));
    assert(r == partial_sum(Product::Outer, *a, *b, 2, 13));
    assert(r == partial_sum(Product::Outer, *a, *b, 2, 14));
    assert(r == partial_sum(Product::Outer, *a, *b, 2, 15));
    assert(r == partial_sum(Product::Outer, *a, *b, 2, 16));
    assert(r == partial_sum(Product::Outer, *a, *b, 2, 17));
    assert(r == partial_sum(Product::Outer, *a, *b, 2, 18));
    assert(r == partial_sum(Product::Outer, *a, *b, 2, 19));
    assert(r == partial_sum(Product::Outer, *a, *b, 2, 20));
    assert(r == partial_sum(Product::Outer, *a, *b, 2, 21));
    assert(r == partial_sum(Product::Outer, *a, *b, 2, 22));
    assert(r == partial_sum(Product::Outer, *a, *b, 2, 23));
    assert(r == partial_sum(Product::Outer, *a, *b, 2, 24));
    assert(r == partial_sum(Product::Outer, *a, *b, 2, 25));
    assert(r == partial_sum(Product::Outer, *a, *b, 2, 26));
    assert(r == partial_sum(Product::Outer, *a, *b, 2, 27));
    assert(r == partial_sum(Product::Outer, *a, *b, 2, 28));
    assert(r == partial_sum(Product::Outer, *a, *b, 2, 29));
    assert(r == partial_sum(Product::Outer, *a, *b, 2, 30));
    assert(r == partial_sum(Product::Outer, *a, *b, 2, 31));
    r
}

/// The coefficient of `e3` in the outer product of `a` and `b`.
fn outer_e3<T: Field>(a: &R410<T>, b: &R410<T>) -> (r: T)
    ensures
        r == partial_sum(Product::Outer, *a, *b, 3, 31),
{
    let r = b.e3.mul(a.s);
    assert(r == partial_sum(Product::Outer, *a, *b, 3, 0));
    assert(r == partial_sum(Product::Outer, *a, *b, 3, 1));
    assert(r == partial_sum(Product::Outer, *a, *b, 3, 2));
    let r = r.add(b.s.mul(a.e3));
    assert(r == partial_sum(Product::Outer, *a, *b, 3, 3));
    assert(r == partial_sum(Product::Outer, *a, *b, 3, 4));
    assert(r == partial_sum(Product::Outer, *a, *b, 3, 5));
    assert(r == partial_sum(Product::Outer, *a, *b, 3, 6));
    assert(r == partial_sum(Product::Outer, *a, *b, 3, 7));
    assert(r == partial_sum(Product::Outer, *a, *b, 3, 8));
    assert(r == partial_sum(Product::Outer, *a, *b, 3, 9));
    assert(r == partial_sum(Product::Outer, *a, *b, 3, 10));
    assert(r == partial_sum(Product::Outer, *a, *b, 3, 11));
    assert(r == partial_sum(Product::Outer, *a, *b, 3, 12));
    assert(r == partial_sum(Product::Outer, *a, *b, 3, 13));
    assert(r == partial_sum(Product::Outer, *a, *b, 3, 14));
    assert(r == partial_sum(Product::Outer, *a, *b, 3, 15));
    assert(r == partial_sum(Product::Outer, *a, *b, 3, 16));
    assert(r == partial_sum(Product::Outer, *a, *b, 3, 17));
    assert(r == partial_sum(Product::Outer, *a, *b, 3, 18));
    assert(r == partial_sum(Product::Outer, *a, *b, 3, 19));
    assert(r == partial_sum(Product::Outer, *a, *b, 3, 20));
    assert(r == partial_sum(Product::Outer, *a, *b, 3, 21));
    assert(r == partial_sum(Product::Outer, *a, *b, 3, 22));
    assert(r == partial_sum(Product::Outer, *a, *b, 3, 23));
    assert(r == partial_sum(Product::Outer, *a, *b, 3, 24));
    assert(r == partial_sum(Product::Outer, *a, *b, 3, 25));
    assert(r == partial_sum(Product::Outer, *a, *b, 3, 26));
    assert(r == partial_sum(Product::Outer, *a, *b, 3, 27));
    assert(r == partial_sum(Product::Outer, *a, *b, 3, 28));
    assert(r == partial_sum(Product::Outer, *a, *b, 3, 29));
    assert(r == partial_sum(Product::Outer, *a, *b, 3, 30));
    assert(r == partial_sum(Product::Outer, *a, *b, 3, 31));
    r
}

/// The coefficient of `ep` in the outer product of `a` and `b`.
fn outer_ep<T: Field>(a: &R410<T>, b: &R410<T>) -> (r: T)
    ensures
        r == partial_sum(Product::Outer, *a, *b, 4, 31),
{
    let r = b.ep.mul(a.s);
    assert(r == partial_sum(Product::Outer, *a, *b, 4, 0));
    assert(r == partial_sum(Product::Outer, *a, *b, 4, 1));
    assert(r == partial_sum(Product::Outer, *a, *b, 4, 2));
    assert(r == partial_sum(Product::Outer, *a, *b, 4, 3));
    let r = r.add(b.s.mul(a.ep));
    assert(r == partial_sum(Product::Outer, *a, *b, 4, 4));
    assert(r == partial_sum(Product::Outer, *a, *b, 4, 5));
    assert(r == partial_sum(Product::Outer, *a, *b, 4, 6));
    assert(r == partial_sum(Product::Outer, *a, *b, 4, 7));
    assert(r == partial_sum(Product::Outer, *a, *b, 4, 8));
    assert(r == partial_sum(Product::Outer, *a, *b, 4, 9));
    assert(r == partial_sum(Product::Outer, *a, *b, 4, 10));
    assert(r == partial_sum(Product::Outer, *a, *b, 4, 11));
    assert(r == partial_sum(Product::Outer, *a, *b, 4, 12));
    assert(r == partial_sum(Product::Outer, *a, *b, 4, 13));
    assert(r == partial_sum(Product::Outer, *a, *b, 4, 14));
    assert(r == partial_sum(Product::Outer, *a, *b, 4, 15));
    assert(r == partial_sum(Product::Outer, *a, *b, 4, 16));
    assert(r == partial_sum(Product::Outer, *a, *b, 4, 17));
    assert(r == partial_sum(Product::Outer, *a, *b, 4, 18));
    assert(r == partial_sum(Product::Outer, *a, *b, 4, 19));
    assert(r == partial_sum(Product::Outer, *a, *b, 4, 20));
    assert(r == partial_sum(Product::Outer, *a, *b, 4, 21));
    assert(r == partial_sum(Product::Outer, *a, *b, 4, 22));
    assert(r == partial_sum(Product::Outer, *a, *b, 4, 23));
    assert(r == partial_sum(Product::Outer, *a, *b, 4, 24));
    assert(r == partial_sum(Product::Outer, *a, *b, 4, 25));
    assert(r == partial_sum(Product::Outer, *a, *b, 4, 26));
    assert(r == partial_sum(Product::Outer, *a, *b, 4, 27));
    assert(r == partial_sum(Product::Outer, *a, *b, 4, 28));
    assert(r == partial_sum(Product::Outer, *a, *b, 4, 29));
    assert(r == partial_sum(Product::Outer, *a, *b, 4, 30));
    assert(r == partial_sum(Product::Outer, *a, *b, 4, 31));
    r
}

/// The coefficient of `en` in the outer product of `a` and `b`.
fn outer_en<T: Field>(a: &R410<T>, b: &R410<T>) -> (r: T)
    ensures
        r == partial_sum(Product::Outer, *a, *b, 5, 31),
{
    let r = b.en.mul(a.s);
    assert(r == partial_sum(Product::Outer, *a, *b, 5, 0));
    assert(r == partial_sum(Product::Outer, *a, *b, 5, 1));
    assert(r == partial_sum(Product::Outer, *a, *b, 5, 2));
    assert(r == partial_sum(Product::Outer, *a, *b, 5, 3));
    assert(r == partial_sum(Product::Outer, *a, *b, 5, 4));
    let r = r.add(b.s.mul(a.en));
    assert(r == partial_sum(Product::Outer, *a, *b, 5, 5));
    assert(r == partial_sum(Product::Outer, *a, *b, 5, 6));
    assert(r == partial_sum(Product::Outer, *a, *b, 5, 7));
    assert(r == partial_sum(Product::Outer, *a, *b, 5, 8));
    assert(r == partial_sum(Product::Outer, *a, *b, 5, 9));
    assert(r == partial_sum(Product::Outer, *a, *b, 5, 10));
    assert(r == partial_sum(Product::Outer, *a, *b, 5, 11));
    assert(r == partial_sum(Product::Outer, *a, *b, 5, 12));
    assert(r == partial_sum(Product::Outer, *a, *b, 5, 13));
    assert(r == partial_sum(Product::Outer, *a, *b, 5, 14));
    assert(r == partial_sum(Product::Outer, *a, *b, 5, 15));
    assert(r == partial_sum(Product::Outer, *a, *b, 5, 16));
    assert(r == partial_sum(Product::Outer, *a, *b, 5, 17));
    assert(r == partial_sum(Product::Outer, *a, *b, 5, 18));
    assert(r == partial_sum(Product::Outer, *a, *b, 5, 19));
    assert(r == partial_sum(Product::Outer, *a, *b, 5, 20));
    assert(r == partial_sum(Product::Outer, *a, *b, 5, 21));
    assert(r == partial_sum(Product::Outer, *a, *b, 5, 22));
    assert(r == partial_sum(Product::Outer, *a, *b, 5, 23));
    assert(r == partial_sum(Product::Outer, *a, *b, 5, 24));
    assert(r == partial_sum(Product::Outer, *a, *b, 5, 25));
    assert(r == partial_sum(Product::Outer, *a, *b, 5, 26));
    assert(r == partial_sum(Product::Outer, *a, *b, 5, 27));
    assert(r == partial_sum(Product::Outer, *a, *b, 5, 28));
    assert(r == partial_sum(Product::Outer, *a, *b, 5, 29));
    assert(r == partial_sum(Product::Outer, *a, *b, 5, 30));
    assert(r == partial_sum(Product::Outer, *a, *b, 5, 31));
    r
}

/// The coefficient of `e12` in the outer product of `a` and `b`.
fn outer_e12<T: Field>(a: &R410<T>, b: &R410<T>) -> (r: T)
    ensures
        r == partial_sum(Product::Outer, *a, *b, 6, 31),
{
    let r = b.e12.mul(a.s);
    assert(r == partial_sum(Product::Outer, *a, *b, 6, 0));
    let r = r.add(b.e2.mul(a.e1));
    assert(r == partial_sum(Product::Outer, *a, *b, 6, 1));
    let r = r.sub(b.e1.mul(a.e2));
    assert(r == partial_sum(Product::Outer, *a, *b, 6, 2));
    assert(r == partial_sum(Product::Outer, *a, *b, 6, 3));
    assert(r == partial_sum(Product::Outer, *a, *b, 6, 4));
    assert(r == partial_sum(Product::Outer, *a, *b, 6, 5));
    let r = r.add(b.s.mul(a.e12));
    assert(r == partial_sum(Product::Outer, *a, *b, 6, 6));
    assert(r == partial_sum(Product::Outer, *a, *b, 6, 7));
    assert(r == partial_sum(Product::Outer, *a, *b, 6, 8));
    assert(r == partial_sum(Product::Outer, *a, *b, 6, 9));
    assert(r == partial_sum(Product::Outer, *a, *b, 6, 10));
    assert(r == partial_sum(Product::Outer, *a, *b, 6, 11));
    assert(r == partial_sum(Product::Outer, *a, *b, 6, 12));
    assert(r == partial_sum(Product::Outer, *a, *b, 6, 13));
    assert(r == partial_sum(Product::Outer, *a, *b, 6, 14));
    assert(r == partial_sum(Product::Outer, *a, *b, 6, 15));
    assert(r == partial_sum(Product::Outer, *a, *b, 6, 16));
    assert(r == partial_sum(Product::Outer, *a, *b, 6, 17));
    assert(r == partial_sum(Product::Outer, *a, *b, 6, 18));
    assert(r == partial_sum(Product::Outer, *a, *b, 6, 19));
    assert(r == partial_sum(Product::Outer, *a, *b, 6, 20));
    assert(r == partial_sum(Product::Outer, *a, *b, 6, 21));
    assert(r == partial_sum(Product::Outer, *a, *b, 6, 22));
    assert(r == partial_sum(Product::Outer, *a, *b, 6, 23));
    assert(r == partial_sum(Product::Outer, *a, *b, 6, 24));
    assert(r == partial_sum(Product::Outer, *a, *b, 6, 25));
    assert(r == partial_sum(Product::Outer, *a, *b, 6, 26));
    assert(r == partial_sum(Product::Outer, *a, *b, 6, 27));
    assert(r == partial_sum(Product::Outer, *a, *b, 6, 28));
    assert(r == partial_sum(Product::Outer, *a, *b, 6, 29));
    assert(r == partial_sum(Product::Outer, *a, *b, 6, 30));
    assert(r == partial_sum(Product::Outer, *a, *b, 6, 31));
    r
}

/// The coefficient of `e13` in the outer product of `a` and `b`.
fn outer_e13<T: Field>(a: &R410<T>, b: &R410<T>) -> (r: T)
    ensures
        r == partial_sum(Product::Outer, *a, *b, 7, 31),
{
    let r = b.e13.mul(a.s);
    assert(r == partial_sum(Product::Outer, *a, *b, 7, 0));
    let r = r.add(b.e3.mul(a.e1));
    assert(r == partial_sum(Product::Outer, *a, *b, 7, 1));
    assert(r == partial_sum(Product::Outer, *a, *b, 7, 2));
    let r = r.sub(b.e1.mul(a.e3));
    assert(r == partial_sum(Product::Outer, *a, *b, 7, 3));
    assert(r == partial_sum(Product::Outer, *a, *b, 7, 4));
    assert(r == partial_sum(Product::Outer, *a, *b, 7, 5));
    assert(r == partial_sum(Product::Outer, *a, *b, 7, 6));
    let r = r.add(b.s.mul(a.e13));
    assert(r == partial_sum(Product::Outer, *a, *b, 7, 7));
    assert(r == partial_sum(Product::Outer, *a, *b, 7, 8));
    assert(r == partial_sum(Product::Outer, *a, *b, 7, 9));
    assert(r == partial_sum(Product::Outer, *a, *b, 7, 10));
    assert(r == partial_sum(Product::Outer, *a, *b, 7, 11));
    assert(r == partial_sum(Product::Outer, *a, *b, 7, 12));
    assert(r == partial_sum(Product::Outer, *a, *b, 7, 13));
    assert(r == partial_sum(Product::Outer, *a, *b, 7, 14));
    assert(r == partial_sum(Product::Outer, *a, *b, 7, 15));
    assert(r == partial_sum(Product::Outer, *a, *b, 7, 16));
    assert(r == partial_sum(Product::Outer, *a, *b, 7, 17));
    assert(r == partial_sum(Product::Outer, *a, *b, 7, 18));
    assert(r == partial_sum(Product::Outer, *a, *b, 7, 19));
    assert(r == partial_sum(Product::Outer, *a, *b, 7, 20));
    assert(r == partial_sum(Product::Outer, *a, *b, 7, 21));
    assert(r == partial_sum(Product::Outer, *a, *b, 7, 22));
    assert(r == partial_sum(Product::Outer, *a, *b, 7, 23));
    assert(r == partial_sum(Product::Outer, *a, *b, 7, 24));
    assert(r == partial_sum(Product::Outer, *a, *b, 7, 25));
    assert(r == partial_sum(Product::Outer, *a, *b, 7, 26));
    assert(r == partial_sum(Product::Outer, *a, *b, 7, 27));
    assert(r == partial_sum(Product::Outer, *a, *b, 7, 28));
    assert(r == partial_sum(Product::Outer, *a, *b, 7, 29));
    assert(r == partial_sum(Product::Outer, *a, *b, 7, 30));
    assert(r == partial_sum(Product::Outer, *a, *b, 7, 31));
    r
}

/// The coefficient of `e1p` in the outer product of `a` and `b`.
fn outer_e1p<T: Field>(a: &R410<T>, b: &R410<T>) -> (r: T)
    ensures
        r == partial_sum(Product::Outer, *a, *b, 8, 31),
{
    let r = b.e1p.mul(a.s);
    assert(r == partial_sum(Product::Outer, *a, *b, 8, 0));
    let r = r.add(b.ep.mul(a.e1));
    assert(r == partial_sum(Product::Outer, *a, *b, 8, 1));
    assert(r == partial_sum(Product::Outer, *a, *b, 8, 2));
    assert(r == partial_sum(Product::Outer, *a, *b, 8, 3));
    let r = r.sub(b.e1.mul(a.ep));
    assert(r == partial_sum(Product::Outer, *a, *b, 8, 4));
    assert(r == partial_sum(Product::Outer, *a, *b, 8, 5));
    assert(r == partial_sum(Product::Outer, *a, *b, 8, 6));
    assert(r == partial_sum(Product::Outer, *a, *b, 8, 7));
    let r = r.add(b.s.mul(a.e1p));
    assert(r == partial_sum(Product::Outer, *a, *b, 8, 8));
    assert(r == partial_sum(Product::Outer, *a, *b, 8, 9));
    assert(r == partial_sum(Product::Outer, *a, *b, 8, 10));
    assert(r == partial_sum(Product::Outer, *a, *b, 8, 11));
    assert(r == partial_sum(Product::Outer, *a, *b, 8, 12));
    assert(r == partial_sum(Product::Outer, *a, *b, 8, 13));
    assert(r == partial_sum(Product::Outer, *a, *b, 8, 14));
    assert(r == partial_sum(Product::Outer, *a, *b, 8, 15));
    assert(r == partial_sum(Product::Outer, *a, *b, 8, 16));
    assert(r == partial_sum(Product::Outer, *a, *b, 8, 17));
    assert(r == partial_sum(Product::Outer, *a, *b, 8, 18));
    assert(r == partial_sum(Product::Outer, *a, *b, 8, 19));
    assert(r == partial_sum(Product::Outer, *a, *b, 8, 20));
    assert(r == partial_sum(Product::Outer, *a, *b, 8, 21));
    assert(r == partial_sum(Product::Outer, *a, *b, 8, 22));
    assert(r == partial_sum(Product::Outer, *a, *b, 8, 23));
    assert(r == partial_sum(Product::Outer, *a, *b, 8, 24));
    assert(r == partial_sum(Product::Outer, *a, *b, 8, 25));
    assert(r == partial_sum(Product::Outer, *a, *b, 8, 26));
    assert(r == partial_sum(Product::Outer, *a, *b, 8, 27));
    assert(r == partial_sum(Product::Outer, *a, *b, 8, 28));
    assert(r == partial_sum(Product::Outer, *a, *b, 8, 29));
    assert(r == partial_sum(Product::Outer, *a, *b, 8, 30));
    assert(r == partial_sum(Product::Outer, *a, *b, 8, 31));
    r
}

/// The coefficient of `e1n` in the outer product of `a` and `b`.
fn outer_e1n<T: Field>(a: &R410<T>, b: &R410<T>) -> (r: T)
    ensures
        r == partial_sum(Product::Outer, *a, *b, 9, 31),
{
    let r = b.e1n.mul(a.s);
    assert(r == partial_sum(Product::Outer, *a, *b, 9, 0));
    let r = r.add(b.en.mul(a.e1));
    assert(r == partial_sum(Product::Outer, *a, *b, 9, 1));
    assert(r == partial_sum(Product::Outer, *a, *b, 9, 2));
    assert(r == partial_sum(Product::Outer, *a, *b, 9, 3));
    assert(r == partial_sum(Product::Outer, *a, *b, 9, 4));
    let r = r.sub(b.e1.mul(a.en));
    assert(r == partial_sum(Product::Outer, *a, *b, 9, 5));
    assert(r == partial_sum(Product::Outer, *a, *b, 9, 6));
    assert(r == partial_sum(Product::Outer, *a, *b, 9, 7));
    assert(r == partial_sum(Product::Outer, *a, *b, 9, 8));
    let r = r.add(b.s.mul(a.e1n));
    assert(r == partial_sum(Product::Outer, *a, *b, 9, 9));
    assert(r == partial_sum(Product::Outer, *a, *b, 9, 10));
    assert(r == partial_sum(Product::Outer, *a, *b, 9, 11));
    assert(r == partial_sum(Product::Outer, *a, *b, 9, 12));
    assert(r == partial_sum(Product::Outer, *a, *b, 9, 13));
    assert(r == partial_sum(Product::Outer, *a, *b, 9, 14));
    assert(r == partial_sum(Product::Outer, *a, *b, 9, 15));
    assert(r == partial_sum(Product::Outer, *a, *b, 9, 16));
    assert(r == partial_sum(Product::Outer, *a, *b, 9, 17));
    assert(r == partial_sum(Product::Outer, *a, *b, 9, 18));
    assert(r == partial_sum(Product::Outer, *a, *b, 9, 19));
    assert(r == partial_sum(Product::Outer, *a, *b, 9, 20));
    assert(r == partial_sum(Product::Outer, *a, *b, 9, 21));
    assert(r == partial_sum(Product::Outer, *a, *b, 9, 22));
    assert(r == partial_sum(Product::Outer, *a, *b, 9, 23));
    assert(r == partial_sum(Product::Outer, *a, *b, 9, 24));
    assert(r == partial_sum(Product::Outer, *a, *b, 9, 25));
    assert(r == partial_sum(Product::Outer, *a, *b, 9, 26));
    assert(r == partial_sum(Product::Outer, *a, *b, 9, 27));
    assert(r == partial_sum(Product::Outer, *a, *b, 9, 28));
    assert(r == partial_sum(Product::Outer, *a, *b, 9, 29));
    assert(r == partial_sum(Product::Outer, *a, *b, 9, 30));
    assert(r == partial_sum(Product::Outer, *a, *b, 9, 31));
    r
}

/// The coefficient of `e23` in the outer product of `a` and `b`.
fn outer_e23<T: Field>(a: &R410<T>, b: &R410<T>) -> (r: T)
    ensures
        r == partial_sum(Product::Outer, *a, *b, 10, 31),
{
    let r = b.e23.mul(a.s);
    assert(r == partial_sum(Product::Outer, *a, *b, 10, 0));
    assert(r == partial_sum(Product::Outer, *a, *b, 10, 1));
    let r = r.add(b.e3.mul(a.e2));
    assert(r == partial_sum(Product::Outer, *a, *b, 10, 2));
    let r = r.sub(b.e2.mul(a.e3));
    assert(r == partial_sum(Product::Outer, *a, *b, 10, 3));
    assert(r == partial_sum(Product::Outer, *a, *b, 10, 4));
    assert(r == partial_sum(Product::Outer, *a, *b, 10, 5));
    assert(r == partial_sum(Product::Outer, *a, *b, 10, 6));
    assert(r == partial_sum(Product::Outer, *a, *b, 10, 7));
    assert(r == partial_sum(Product::Outer, *a, *b, 10, 8));
    assert(r == partial_sum(Product::Outer, *a, *b, 10, 9));
    let r = r.add(b.s.mul(a.e23));
    assert(r == partial_sum(Product::Outer, *a, *b, 10, 10));
    assert(r == partial_sum(Product::Outer, *a, *b, 10, 11));
    assert(r == partial_sum(Product::Outer, *a, *b, 10, 12));
    assert(r == partial_sum(Product::Outer, *a, *b, 10, 13));
    assert(r == partial_sum(Product::Outer, *a, *b, 10, 14));
    assert(r == partial_sum(Product::Outer, *a, *b, 10, 15));
    assert(r == partial_sum(Product::Outer, *a, *b, 10, 16));
    assert(r == partial_sum(Product::Outer, *a, *b, 10, 17));
    assert(r == partial_sum(Product::Outer, *a, *b, 10, 18));
    assert(r == partial_sum(Product::Outer, *a, *b, 10, 19));
    assert(r == partial_sum(Product::Outer, *a, *b, 10, 20));
    assert(r == partial_sum(Product::Outer, *a, *b, 10, 21));
    assert(r == partial_sum(Product::Outer, *a, *b, 10, 22));
    assert(r == partial_sum(Product::Outer, *a, *b, 10, 23));
    assert(r == partial_sum(Product::Outer, *a, *b, 10, 24));
    assert(r == partial_sum(Product::Outer, *a, *b, 10, 25));
    assert(r == partial_sum(Product::Outer, *a, *b, 10, 26));
    assert(r == partial_sum(Product::Outer, *a, *b, 10, 27));
    assert(r == partial_sum(Product::Outer, *a, *b, 10, 28));
    assert(r == partial_sum(Product::Outer, *a, *b, 10, 29));
    assert(r == partial_sum(Product::Outer, *a, *b, 10, 30));
    assert(r == partial_sum(Product::Outer, *a, *b, 10, 31));
    r
}

/// The coefficient of `e2p` in the outer product of `a` and `b`.
fn outer_e2p<T: Field>(a: &R410<T>, b: &R410<T>) -> (r: T)
    ensures
        r == partial_sum(Product::Outer, *a, *b, 11, 31),
{
    let r = b.e2p.mul(a.s);
    assert(r == partial_sum(Product::Outer, *a, *b, 11, 0));
    assert(r == partial_sum(Product::Outer, *a, *b, 11, 1));
    let r = r.add(b.ep.mul(a.e2));
    assert(r == partial_sum(Product::Outer, *a, *b, 11, 2));
    assert(r == partial_sum(Product::Outer, *a, *b, 11, 3));
    let r = r.sub(b.e2.mul(a.ep));
    assert(r == partial_sum(Product::Outer, *a, *b, 11, 4));
    assert(r == partial_sum(Product::Outer, *a, *b, 11, 5));
    assert(r == partial_sum(Product::Outer, *a, *b, 11, 6));
    assert(r == partial_sum(Product::Outer, *a, *b, 11, 7));
    assert(r == partial_sum(Product::Outer, *a, *b, 11, 8));
    assert(r == partial_sum(Product::Outer, *a, *b, 11, 9));
    assert(r == partial_sum(Product::Outer, *a, *b, 11, 10));
    let r = r.add(b.s.mul(a.e2p));
    assert(r == partial_sum(Product::Outer, *a, *b, 11, 11));
    assert(r == partial_sum(Product::Outer, *a, *b, 11, 12));
    assert(r == partial_sum(Product::Outer, *a, *b, 11, 13));
    assert(r == partial_sum(Product::Outer, *a, *b, 11, 14));
    assert(r == partial_sum(Product::Outer, *a, *b, 11, 15));
    assert(r == partial_sum(Product::Outer, *a, *b, 11, 16));
    assert(r == partial_sum(Product::Outer, *a, *b, 11, 17));
    assert(r == partial_sum(Product::Outer, *a, *b, 11, 18));
    assert(r == partial_sum(Product::Outer, *a, *b, 11, 19));
    assert(r == partial_sum(Product::Outer, *a, *b, 11, 20));
    assert(r == partial_sum(Product::Outer, *a, *b, 11, 21));
    assert(r == partial_sum(Product::Outer, *a, *b, 11, 22));
    assert(r == partial_sum(Product::Outer, *a, *b, 11, 23));
    assert(r == partial_sum(Product::Outer, *a, *b, 11, 24));
    assert(r == partial_sum(Product::Outer, *a, *b, 11, 25));
    assert(r == partial_sum(Product::Outer, *a, *b, 11, 26));
    assert(r == partial_sum(Product::Outer, *a, *b, 11, 27));
    assert(r == partial_sum(Product::Outer, *a, *b, 11, 28));
    assert(r == partial_sum(Product::Outer, *a, *b, 11, 29));
    assert(r == partial_sum(Product::Outer, *a, *b, 11, 30));
    assert(r == partial_sum(Product::Outer, *a, *b, 11, 31));
    r
}

/// The coefficient of `e2n` in the outer product of `a` and `b`.
fn outer_e2n<T: Field>(a: &R410<T>, b: &R410<T>) -> (r: T)
    ensures
        r == partial_sum(Product::Outer, *a, *b, 12, 31),
{
    let r = b.e2n.mul(a.s);
    assert(r == partial_sum(Product::Outer, *a, *b, 12, 0));
    assert(r == partial_sum(Product::Outer, *a, *b, 12, 1));
    let r = r.add(b.en.mul(a.e2));
    assert(r == partial_sum(Product::Outer, *a, *b, 12, 2));
    assert(r == partial_sum(Product::Outer, *a, *b, 12, 3));
    assert(r == partial_sum(Product::Outer, *a, *b, 12, 4));
    let r = r.sub(b.e2.mul(a.en));
    assert(r == partial_sum(Product::Outer, *a, *b, 12, 5));
    assert(r == partial_sum(Product::Outer, *a, *b, 12, 6));
    assert(r == partial_sum(Product::Outer, *a, *b, 12, 7));
    assert(r == partial_sum(Product::Outer, *a, *b, 12, 8));
    assert(r == partial_sum(Product::Outer, *a, *b, 12, 9));
    assert(r == partial_sum(Product::Outer, *a, *b, 12, 10));
    assert(r == partial_sum(Product::Outer, *a, *b, 12, 11));
    let r = r.add(b.s.mul(a.e2n));
    assert(r == partial_sum(Product::Outer, *a, *b, 12, 12));
    assert(r == partial_sum(Product::Outer, *a, *b, 12, 13));
    assert(r == partial_sum(Product::Outer, *a, *b, 12, 14));
    assert(r == partial_sum(Product::Outer, *a, *b, 12, 15));
    assert(r == partial_sum(Product::Outer, *a, *b, 12, 16));
    assert(r == partial_sum(Product::Outer, *a, *b, 12, 17));
    assert(r == partial_sum(Product::Outer, *a, *b, 12, 18));
    assert(r == partial_sum(Product::Outer, *a, *b, 12, 19));
    assert(r == partial_sum(Product::Outer, *a, *b, 12, 20));
    assert(r == partial_sum(Product::Outer, *a, *b, 12, 21));
    assert(r == partial_sum(Product::Outer, *a, *b, 12, 22));
    assert(r == partial_sum(Product::Outer, *a, *b, 12, 23));
    assert(r == partial_sum(Product::Outer, *a, *b, 12, 24));
    assert(r == partial_sum(Product::Outer, *a, *b, 12, 25));
    assert(r == partial_sum(Product::Outer, *a, *b, 12, 26));
    assert(r == partial_sum(Product::Outer, *a, *b, 12, 27));
    assert(r == partial_sum(Product::Outer, *a, *b, 12, 28));
    assert(r == partial_sum(Product::Outer, *a, *b, 12, 29));
    assert(r == partial_sum(Product::Outer, *a, *b, 12, 30));
    assert(r == partial_sum(Product::Outer, *a, *b, 12, 31));
    r
}

/// The coefficient of `e3p` in the outer product of `a` and `b`.
fn outer_e3p<T: Field>(a: &R410<T>, b: &R410<T>) -> (r: T)
    ensures
        r == partial_sum(Product::Outer, *a, *b, 13, 31),
{
    let r = b.e3p.mul(a.s);
    assert(r == partial_sum(Product::Outer, *a, *b, 13, 0));
    assert(r == partial_sum(Product::Outer, *a, *b, 13, 1));
    assert(r == partial_sum(Product::Outer, *a, *b, 13, 2));
    let r = r.add(b.ep.mul(a.e3));
    assert(r == partial_sum(Product::Outer, *a, *b, 13, 3));
    let r = r.sub(b.e3.mul(a.ep));
    assert(r == partial_sum(Product::Outer, *a, *b, 13, 4));
    assert(r == partial_sum(Product::Outer, *a, *b, 13, 5));
    assert(r == partial_sum(Product::Outer, *a, *b, 13, 6));
    assert(r == partial_sum(Product::Outer, *a, *b, 13, 7));
    assert(r == partial_sum(Product::Outer, *a, *b, 13, 8));
    assert(r == partial_sum(Product::Outer, *a, *b, 13, 9));
    assert(r == partial_sum(Product::Outer, *a, *b, 13, 10));
    assert(r == partial_sum(Product::Outer, *a, *b, 13, 11));
    assert(r == partial_sum(Product::Outer, *a, *b, 13, 12));
    let r = r.add(b.s.mul(a.e3p));
    assert(r == partial_sum(Product::Outer, *a, *b, 13, 13));
    assert(r == partial_sum(Product::Outer, *a, *b, 13, 14));
    assert(r == partial_sum(Product::Outer, *a, *b, 13, 15));
    assert(r == partial_sum(Product::Outer, *a, *b, 13, 16));
    assert(r == partial_sum(Product::Outer, *a, *b, 13, 17));
    assert(r == partial_sum(Product::Outer, *a, *b, 13, 18));
    assert(r == partial_sum(Product::Outer, *a, *b, 13, 19));
    assert(r == partial_sum(Product::Outer, *a, *b, 13, 20));
    assert(r == partial_sum(Product::Outer, *a, *b, 13, 21));
    assert(r == partial_sum(Product::Outer, *a, *b, 13, 22));
    assert(r == partial_sum(Product::Outer, *a, *b, 13, 23));
    assert(r == partial_sum(Product::Outer, *a, *b, 13, 24));
    assert(r == partial_sum(Product::Outer, *a, *b, 13, 25));
    assert(r == partial_sum(Product::Outer, *a, *b, 13, 26));
    assert(r == partial_sum(Product::Outer, *a, *b, 13, 27));
    assert(r == partial_sum(Product::Outer, *a, *b, 13, 28));
    assert(r == partial_sum(Product::Outer, *a, *b, 13, 29));
    assert(r == partial_sum(Product::Outer, *a, *b, 13, 30));
    assert(r == partial_sum(Product::Outer, *a, *b, 13, 31));
    r
}

/// The coefficient of `e3n` in the outer product of `a` and `b`.
fn outer_e3n<T: Field>(a: &R410<T>, b: &R410<T>) -> (r: T)
    ensures
        r == partial_sum(Product::Outer, *a, *b, 14, 31),
{
    let r = b.e3n.mul(a.s);
    assert(r == partial_sum(Product::Outer, *a, *b, 14, 0));
    assert(r == partial_sum(Product::Outer, *a, *b, 14, 1));
    assert(r == partial_sum(Product::Outer, *a, *b, 14, 2));
    let r = r.add(b.en.mul(a.e3));
    assert(r == partial_sum(Product::Outer, *a, *b, 14, 3));
    assert(r == partial_sum(Product::Outer, *a, *b, 14, 4));
    let r = r.sub(b.e3.mul(a.en));
    assert(r == partial_sum(Product::Outer, *a, *b, 14, 5));
    assert(r == partial_sum(Product::Outer, *a, *b, 14, 6));
    assert(r == partial_sum(Product::Outer, *a, *b, 14, 7));
    assert(r == partial_sum(Product::Outer, *a, *b, 14, 8));
    assert(r == partial_sum(Product::Outer, *a, *b, 14, 9));
    assert(r == partial_sum(Product::Outer, *a, *b, 14, 10));
    assert(r == partial_sum(Product::Outer, *a, *b, 14, 11));
    assert(r == partial_sum(Product::Outer, *a, *b, 14, 12));
    assert(r == partial_sum(Product::Outer, *a, *b, 14, 13));
    let r = r.add(b.s.mul(a.e3n));
    assert(r == partial_sum(Product::Outer, *a, *b, 14, 14));
    assert(r == partial_sum(Product::Outer, *a, *b, 14, 15));
    assert(r == partial_sum(Product::Outer, *a, *b, 14, 16));
    assert(r == partial_sum(Product::Outer, *a, *b, 14, 17));
    assert(r == partial_sum(Product::Outer, *a, *b, 14, 18));
    assert(r == partial_sum(Product::Outer, *a, *b, 14, 19));
    assert(r == partial_sum(Product::Outer, *a, *b, 14, 20));
    assert(r == partial_sum(Product::Outer, *a, *b, 14, 21));
    assert(r == partial_sum(Product::Outer, *a, *b, 14, 22));
    assert(r == partial_sum(Product::Outer, *a, *b, 14, 23));
    assert(r == partial_sum(Product::Outer, *a, *b, 14, 24));
    assert(r == partial_sum(Product::Outer, *a, *b, 14, 25));
    assert(r == partial_sum(Product::Outer, *a, *b, 14, 26));
    assert(r == partial_sum(Product::Outer, *a, *b, 14, 27));
    assert(r == partial_sum(Product::Outer, *a, *b, 14, 28));
    assert(r == partial_sum(Product::Outer, *a, *b, 14, 29));
    assert(r == partial_sum(Product::Outer, *a, *b, 14, 30));
    assert(r == partial_sum(Product::Outer, *a, *b, 14, 31));
    r
}

/// The coefficient of `epn` in the outer product of `a` and `b`.
fn outer_epn<T: Field>(a: &R410<T>, b: &R410<T>) -> (r: T)
    ensures
        r == partial_sum(Product::Outer, *a, *b, 15, 31),
{
    let r = b.epn.mul(a.s);
    assert(r == partial_sum(Product::Outer, *a, *b, 15, 0));
    assert(r == partial_sum(Product::Outer, *a, *b, 15, 1));
    assert(r == partial_sum(Product::Outer, *a, *b, 15, 2));
    assert(r == partial_sum(Product::Outer, *a, *b, 15, 3));
    let r = r.add(b.en.mul(a.ep));
    assert(r == partial_sum(Product::Outer, *a, *b, 15, 4));
    let r = r.sub(b.ep.mul(a.en));
    assert(r == partial_sum(Product::Outer, *a, *b, 15, 5));
    assert(r == partial_sum(Product::Outer, *a, *b, 15, 6));
    assert(r == partial_sum(Product::Outer, *a, *b, 15, 7));
    assert(r == partial_sum(Product::Outer, *a, *b, 15, 8));
    assert(r == partial_sum(Product::Outer, *a, *b, 15, 9));
    assert(r == partial_sum(Product::Outer, *a, *b, 15, 10));
    assert(r == partial_sum(Product::Outer, *a, *b, 15, 11));
    assert(r == partial_sum(Product::Outer, *a, *b, 15, 12));
    assert(r == partial_sum(Product::Outer, *a, *b, 15, 13));
    assert(r == partial_sum(Product::Outer, *a, *b, 15, 14));
    let r = r.add(b.s.mul(a.epn));
    assert(r == partial_sum(Product::Outer, *a, *b, 15, 15));
    assert(r == partial_sum(Product::Outer, *a, *b, 15, 16));
    assert(r == partial_sum(Product::Outer, *a, *b, 15, 17));
    assert(r == partial_sum(Product::Outer, *a, *b, 15, 18));
    assert(r == partial_sum(Product::Outer, *a, *b, 15, 19));
    assert(r == partial_sum(Product::Outer, *a, *b, 15, 20));
    assert(r == partial_sum(Product::Outer, *a, *b, 15, 21));
    assert(r == partial_sum(Product::Outer, *a, *b, 15, 22));
    assert(r == partial_sum(Product::Outer, *a, *b, 15, 23));
    assert(r == partial_sum(Product::Outer, *a, *b, 15, 24));
    assert(r == partial_sum(Product::Outer, *a, *b, 15, 25));
    assert(r == partial_sum(Product::Outer, *a, *b, 15, 26));
    assert(r == partial_sum(Product::Outer, *a, *b, 15, 27));
    assert(r == partial_sum(Product::Outer, *a, *b, 15, 28));
    assert(r == partial_sum(Product::Outer, *a, *b, 15, 29));
    assert(r == partial_sum(Product::Outer, *a, *b, 15, 30));
    assert(r == partial_sum(Product::Outer, *a, *b, 15, 31));
    r
}

/// The coefficient of `e123` in the outer product of `a` and `b`.
fn outer_e123<T: Field>(a: &R410<T>, b: &R410<T>) -> (r: T)
    ensures
        r == partial_sum(Product::Outer, *a, *b, 16, 31),
{
    let r = b.e123.mul(a.s);
    assert(r == partial_sum(Product::Outer, *a, *b, 16, 0));
    let r = r.add(b.e23.mul(a.e1));
    assert(r == partial_sum(Product::Outer, *a, *b, 16, 1));
    let r = r.sub(b.e13.mul(a.e2));
    assert(r == partial_sum(Product::Outer, *a, *b, 16, 2));
    let r = r.add(b.e12.mul(a.e3));
    assert(r == partial_sum(Product::Outer, *a, *b, 16, 3));
    assert(r == partial_sum(Product::Outer, *a, *b, 16, 4));
    assert(r == partial_sum(Product::Outer, *a, *b, 16, 5));
    let r = r.add(b.e3.mul(a.e12));
    assert(r == partial_sum(Product::Outer, *a, *b, 16, 6));
    let r = r.sub(b.e2.mul(a.e13));
    assert(r == partial_sum(Product::Outer, *a, *b, 16, 7));
    assert(r == partial_sum(Product::Outer, *a, *b, 16, 8));
    assert(r == partial_sum(Product::Outer, *a, *b, 16, 9));
    let r = r.add(b.e1.mul(a.e23));
    assert(r == partial_sum(Product::Outer, *a, *b, 16, 10));
    assert(r == partial_sum(Product::Outer, *a, *b, 16, 11));
    assert(r == partial_sum(Product::Outer, *a, *b, 16, 12));
    assert(r == partial_sum(Product::Outer, *a, *b, 16, 13));
    assert(r == partial_sum(Product::Outer, *a, *b, 16, 14));
    assert(r == partial_sum(Product::Outer, *a, *b, 16, 15));
    let r = r.add(b.s.mul(a.e123));
    assert(r == partial_sum(Product::Outer, *a, *b, 16, 16));
    assert(r == partial_sum(Product::Outer, *a, *b, 16, 17));
    assert(r == partial_sum(Product::Outer, *a, *b, 16, 18));
    assert(r == partial_sum(Product::Outer, *a, *b, 16, 19));
    assert(r == partial_sum(Product::Outer, *a, *b, 16, 20));
    assert(r == partial_sum(Product::Outer, *a, *b, 16, 21));
    assert(r == partial_sum(Product::Outer, *a, *b, 16, 22));
    assert(r == partial_sum(Product::Outer, *a, *b, 16, 23));
    assert(r == partial_sum(Product::Outer, *a, *b, 16, 24));
    assert(r == partial_sum(Product::Outer, *a, *b, 16, 25));
    assert(r == partial_sum(Product::Outer, *a, *b, 16, 26));
    assert(r == partial_sum(Product::Outer, *a, *b, 16, 27));
    assert(r == partial_sum(Product::Outer, *a, *b, 16, 28));
    assert(r == partial_sum(Product::Outer, *a, *b, 16, 29));
    assert(r == partial_sum(Product::Outer, *a, *b, 16, 30));
    assert(r == partial_sum(Product::Outer, *a, *b, 16, 31));
    r
}

/// The coefficient of `e12p` in the outer product of `a` and `b`.
fn outer_e12p<T: Field>(a: &R410<T>, b: &R410<T>) -> (r: T)
    ensures
        r == partial_sum(Product::Outer, *a, *b, 17, 31),
{
    let r = b.e12p.mul(a.s);
    assert(r == partial_sum(Product::Outer, *a, *b, 17, 0));
    let r = r.add(b.e2p.mul(a.e1));
    assert(r == partial_sum(Product::Outer, *a, *b, 17, 1));
    let r = r.sub(b.e1p.mul(a.e2));
    assert(r == partial_sum(Product::Outer, *a, *b, 17, 2));
    assert(r == partial_sum(Product::Outer, *a, *b, 17, 3));
    let r = r.add(b.e12.mul(a.ep));
    assert(r == partial_sum(Product::Outer, *a, *b, 17, 4));
    assert(r == partial_sum(Product::Outer, *a, *b, 17, 5));
    let r = r.add(b.ep.mul(a.e12));
    assert(r == partial_sum(Product::Outer, *a, *b, 17, 6));
    assert(r == partial_sum(Product::Outer, *a, *b, 17, 7));
    let r = r.sub(b.e2.mul(a.e1p));
    assert(r == partial_sum(Product::Outer, *a, *b, 17, 8));
    assert(r == partial_sum(Product::Outer, *a, *b, 17, 9));
    assert(r == partial_sum(Product::Outer, *a, *b, 17, 10));
    let r = r.add(b.e1.mul(a.e2p));
    assert(r == partial_sum(Product::Outer, *a, *b, 17, 11));
    assert(r == partial_sum(Product::Outer, *a, *b, 17, 12));
    assert(r == partial_sum(Product::Outer, *a, *b, 17, 13));
    assert(r == partial_sum(Product::Outer, *a, *b, 17, 14));
    assert(r == partial_sum(Product::Outer, *a, *b, 17, 15));
    assert(r == partial_sum(Product::Outer, *a, *b, 17, 16));
    let r = r.add(b.s.mul(a.e12p));
    assert(r == partial_sum(Product::Outer, *a, *b, 17, 17));
    assert(r == partial_sum(Product::Outer, *a, *b, 17, 18));
    assert(r == partial_sum(Product::Outer, *a, *b, 17, 19));
    assert(r == partial_sum(Product::Outer, *a, *b, 17, 20));
    assert(r == partial_sum(Product::Outer, *a, *b, 17, 21));
    assert(r == partial_sum(Product::Outer, *a, *b, 17, 22));
    assert(r == partial_sum(Product::Outer, *a, *b, 17, 23));
    assert(r == partial_sum(Product::Outer, *a, *b, 17, 24));
    assert(r == partial_sum(Product::Outer, *a, *b, 17, 25));
    assert(r == partial_sum(Product::Outer, *a, *b, 17, 26));
    assert(r == partial_sum(Product::Outer, *a, *b, 17, 27));
    assert(r == partial_sum(Product::Outer, *a, *b, 17, 28));
    assert(r == partial_sum(Product::Outer, *a, *b, 17, 29));
    assert(r == partial_sum(Product::Outer, *a, *b, 17, 30));
    assert(r == partial_sum(Product::Outer, *a, *b, 17, 31));
    r
}

/// The coefficient of `e12n` in the outer product of `a` and `b`.
fn outer_e12n<T: Field>(a: &R410<T>, b: &R410<T>) -> (r: T)
    ensures
        r == partial_sum(Product::Outer, *a, *b, 18, 31),
{
    let r = b.e12n.mul(a.s);
    assert(r == partial_sum(Product::Outer, *a, *b, 18, 0));
    let r = r.add(b.e2n.mul(a.e1));
    assert(r == partial_sum(Product::Outer, *a, *b, 18, 1));
    let r = r.sub(b.e1n.mul(a.e2));
    assert(r == partial_sum(Product::Outer, *a, *b, 18, 2));
    assert(r == partial_sum(Product::Outer, *a, *b, 18, 3));
    assert(r == partial_sum(Product::Outer, *a, *b, 18, 4));
    let r = r.add(b.e12.mul(a.en));
    assert(r == partial_sum(Product::Outer, *a, *b, 18, 5));
    let r = r.add(b.en.mul(a.e12));
    assert(r == partial_sum(Product::Outer, *a, *b, 18, 6));
    assert(r == partial_sum(Product::Outer, *a, *b, 18, 7));
    assert(r == partial_sum(Product::Outer, *a, *b, 18, 8));
    let r = r.sub(b.e2.mul(a.e1n));
    assert(r == partial_sum(Product::Outer, *a, *b, 18, 9));
    assert(r == partial_sum(Product::Outer, *a, *b, 18, 10));
    assert(r == partial_sum(Product::Outer, *a, *b, 18, 11));
    let r = r.add(b.e1.mul(a.e2n));
    assert(r == partial_sum(Product::Outer, *a, *b, 18, 12));
    assert(r == partial_sum(Product::Outer, *a, *b, 18, 13));
    assert(r == partial_sum(Product::Outer, *a, *b, 18, 14));
    assert(r == partial_sum(Product::Outer, *a, *b, 18, 15));
    assert(r == partial_sum(Product::Outer, *a, *b, 18, 16));
    assert(r == partial_sum(Product::Outer, *a, *b, 18, 17));
    let r = r.add(b.s.mul(a.e12n));
    assert(r == partial_sum(Product::Outer, *a, *b, 18, 18));
    assert(r == partial_sum(Product::Outer, *a, *b, 18, 19));
    assert(r == partial_sum(Product::Outer, *a, *b, 18, 20));
    assert(r == partial_sum(Product::Outer, *a, *b, 18, 21));
    assert(r == partial_sum(Product::Outer, *a, *b, 18, 22));
    assert(r == partial_sum(Product::Outer, *a, *b, 18, 23));
    assert(r == partial_sum(Product::Outer, *a, *b, 18, 24));
    assert(r == partial_sum(Product::Outer, *a, *b, 18, 25));
    assert(r == partial_sum(Product::Outer, *a, *b, 18, 26));
    assert(r == partial_sum(Product::Outer, *a, *b, 18, 27));
    assert(r == partial_sum(Product::Outer, *a, *b, 18, 28));
    assert(r == partial_sum(Product::Outer, *a, *b, 18, 29));
    assert(r == partial_sum(Product::Outer, *a, *b, 18, 30));
    assert(r == partial_sum(Product::Outer, *a, *b, 18, 31));
    r
}

/// The coefficient of `e13p` in the outer product of `a` and `b`.
fn outer_e13p<T: Field>(a: &R410<T>, b: &R410<T>) -> (r: T)
    ensures
        r == partial_sum(Product::Outer, *a, *b, 19, 31),
{
    let r = b.e13p.mul(a.s);
    assert(r == partial_sum(Product::Outer, *a, *b, 19, 0));
    let r = r.add(b.e3p.mul(a.e1));
    assert(r == partial_sum(Product::Outer, *a, *b, 19, 1));
    assert(r == partial_sum(Product::Outer, *a, *b, 19, 2));
    let r = r.sub(b.e1p.mul(a.e3));
    assert(r == partial_sum(Product::Outer, *a, *b, 19, 3));
    let r = r.add(b.e13.mul(a.ep));
    assert(r == partial_sum(Product::Outer, *a, *b, 19, 4));
    assert(r == partial_sum(Product::Outer, *a, *b, 19, 5));
    assert(r == partial_sum(Product::Outer, *a, *b, 19, 6));
    let r = r.add(b.ep.mul(a.e13));
    assert(r == partial_sum(Product::Outer, *a, *b, 19, 7));
    let r = r.sub(b.e3.mul(a.e1p));
    assert(r == partial_sum(Product::Outer, *a, *b, 19, 8));
    assert(r == partial_sum(Product::Outer, *a, *b, 19, 9));
    assert(r == partial_sum(Product::Outer, *a, *b, 19, 10));
    assert(r == partial_sum(Product::Outer, *a, *b, 19, 11));
    assert(r == partial_sum(Product::Outer, *a, *b, 19, 12));
    let r = r.add(b.e1.mul(a.e3p));
    assert(r == partial_sum(Product::Outer, *a, *b, 19, 13));
    assert(r == partial_sum(Product::Outer, *a, *b, 19, 14));
    assert(r == partial_sum(Product::Outer, *a, *b, 19, 15));
    assert(r == partial_sum(Product::Outer, *a, *b, 19, 16));
    assert(r == partial_sum(Product::Outer, *a, *b, 19, 17));
    assert(r == partial_sum(Product::Outer, *a, *b, 19, 18));
    let r = r.add(b.s.mul(a.e13p));
    assert(r == partial_sum(Product::Outer, *a, *b, 19, 19));
    assert(r == partial_sum(Product::Outer, *a, *b, 19, 20));
    assert(r == partial_sum(Product::Outer, *a, *b, 19, 21));
    assert(r == partial_sum(Product::Outer, *a, *b, 19, 22));
    assert(r == partial_sum(Product::Outer, *a, *b, 19, 23));
    assert(r == partial_sum(Product::Outer, *a, *b, 19, 24));
    assert(r == partial_sum(Product::Outer, *a, *b, 19, 25));
    assert(r == partial_sum(Product::Outer, *a, *b, 19, 26));
    assert(r == partial_sum(Product::Outer, *a, *b, 19, 27));
    assert(r == partial_sum(Product::Outer, *a, *b, 19, 28));
    assert(r == partial_sum(Product::Outer, *a, *b, 19, 29));
    assert(r == partial_sum(Product::Outer, *a, *b, 19, 30));
    assert(r == partial_sum(Product::Outer, *a, *b, 19, 31));
    r
}

/// The coefficient of `e13n` in the outer product of `a` and `b`.
fn outer_e13n<T: Field>(a: &R410<T>, b: &R410<T>) -> (r: T)
    ensures
        r == partial_sum(Product::Outer, *a, *b, 20, 31),
{
    let r = b.e13n.mul(a.s);
    assert(r == partial_sum(Product::Outer, *a, *b, 20, 0));
    let r = r.add(b.e3n.mul(a.e1));
    assert(r == partial_sum(Product::Outer, *a, *b, 20, 1));
    assert(r == partial_sum(Product::Outer, *a, *b, 20, 2));
    let r = r.sub(b.e1n.mul(a.e3));
    assert(r == partial_sum(Product::Outer, *a, *b, 20, 3));
    assert(r == partial_sum(Product::Outer, *a, *b, 20, 4));
    let r = r.add(b.e13.mul(a.en));
    assert(r == partial_sum(Product::Outer, *a, *b, 20, 5));
    assert(r == partial_sum(Product::Outer, *a, *b, 20, 6));
    let r = r.add(b.en.mul(a.e13));
    assert(r == partial_sum(Product::Outer, *a, *b, 20, 7));
    assert(r == partial_sum(Product::Outer, *a, *b, 20, 8));
    let r = r.sub(b.e3.mul(a.e1n));
    assert(r == partial_sum(Product::Outer, *a, *b, 20, 9));
    assert(r == partial_sum(Product::Outer, *a, *b, 20, 10));
    assert(r == partial_sum(Product::Outer, *a, *b, 20, 11));
    assert(r == partial_sum(Product::Outer, *a, *b, 20, 12));
    assert(r == partial_sum(Product::Outer, *a, *b, 20, 13));
    let r = r.add(b.e1.mul(a.e3n));
    assert(r == partial_sum(Product::Outer, *a, *b, 20, 14));
    assert(r == partial_sum(Product::Outer, *a, *b, 20, 15));
    assert(r == partial_sum(Product::Outer, *a, *b, 20, 16));
    assert(r == partial_sum(Product::Outer, *a, *b, 20, 17));
    assert(r == partial_sum(Product::Outer, *a, *b, 20, 18));
    assert(r == partial_sum(Product::Outer, *a, *b, 20, 19));
    let r = r.add(b.s.mul(a.e13n));
    assert(r == partial_sum(Product::Outer, *a, *b, 20, 20));
    assert(r == partial_sum(Product::Outer, *a, *b, 20, 21));
    assert(r == partial_sum(Product::Outer, *a, *b, 20, 22));
    assert(r == partial_sum(Product::Outer, *a, *b, 20, 23));
    assert(r == partial_sum(Product::Outer, *a, *b, 20, 24));
    assert(r == partial_sum(Product::Outer, *a, *b, 20, 25));
    assert(r == partial_sum(Product::Outer, *a, *b, 20, 26));
    assert(r == partial_sum(Product::Outer, *a, *b, 20, 27));
    assert(r == partial_sum(Product::Outer, *a, *b, 20, 28));
    assert(r == partial_sum(Product::Outer, *a, *b, 20, 29));
    assert(r == partial_sum(Product::Outer, *a, *b, 20, 30));
    assert(r == partial_sum(Product::Outer, *a, *b, 20, 31));
    r
}

/// The coefficient of `e1pn` in the outer product of `a` and `b`.
fn outer_e1pn<T: Field>(a: &R410<T>, b: &R410<T>) -> (r: T)
    ensures
        r == partial_sum(Product::Outer, *a, *b, 21, 31),
{
    let r = b.e1pn.mul(a.s);
    assert(r == partial_sum(Product::Outer, *a, *b, 21, 0));
    let r = r.add(b.epn.mul(a.e1));
    assert(r == partial_sum(Product::Outer, *a, *b, 21, 1));
    assert(r == partial_sum(Product::Outer, *a, *b, 21, 2));
    assert(r == partial_sum(Product::Outer, *a, *b, 21, 3));
    let r = r.sub(b.e1n.mul(a.ep));
    assert(r == partial_sum(Product::Outer, *a, *b, 21, 4));
    let r = r.add(b.e1p.mul(a.en));
    assert(r == partial_sum(Product::Outer, *a, *b, 21, 5));
    assert(r == partial_sum(Product::Outer, *a, *b, 21, 6));
    assert(r == partial_sum(Product::Outer, *a, *b, 21, 7));
    let r = r.add(b.en.mul(a.e1p));
    assert(r == partial_sum(Product::Outer, *a, *b, 21, 8));
    let r = r.sub(b.ep.mul(a.e1n));
    assert(r == partial_sum(Product::Outer, *a, *b, 21, 9));
    assert(r == partial_sum(Product::Outer, *a, *b, 21, 10));
    assert(r == partial_sum(Product::Outer, *a, *b, 21, 11));
    assert(r == partial_sum(Product::Outer, *a, *b, 21, 12));
    assert(r == partial_sum(Product::Outer, *a, *b, 21, 13));
    assert(r == partial_sum(Product::Outer, *a, *b, 21, 14));
    let r = r.add(b.e1.mul(a.epn));
    assert(r == partial_sum(Product::Outer, *a, *b, 21, 15));
    assert(r == partial_sum(Product::Outer, *a, *b, 21, 16));
    assert(r == partial_sum(Product::Outer, *a, *b, 21, 17));
    assert(r == partial_sum(Product::Outer, *a, *b, 21, 18));
    assert(r == partial_sum(Product::Outer, *a, *b, 21, 19));
    assert(r == partial_sum(Product::Outer, *a, *b, 21, 20));
    let r = r.add(b.s.mul(a.e1pn));
    assert(r == partial_sum(Product::Outer, *a, *b, 21, 21));
    assert(r == partial_sum(Product::Outer, *a, *b, 21, 22));
    assert(r == partial_sum(Product::Outer, *a, *b, 21, 23));
    assert(r == partial_sum(Product::Outer, *a, *b, 21, 24));
    assert(r == partial_sum(Product::Outer, *a, *b, 21, 25));
    assert(r == partial_sum(Product::Outer, *a, *b, 21, 26));
    assert(r == partial_sum(Product::Outer, *a, *b, 21, 27));
    assert(r == partial_sum(Product::Outer, *a, *b, 21, 28));
    assert(r == partial_sum(Product::Outer, *a, *b, 21, 29));
    assert(r == partial_sum(Product::Outer, *a, *b, 21, 30));
    assert(r == partial_sum(Product::Outer, *a, *b, 21, 31));
    r
}

/// The coefficient of `e23p` in the outer product of `a` and `b`.
fn outer_e23p<T: Field>(a: &R410<T>, b: &R410<T>) -> (r: T)
    ensures
        r == partial_sum(Product::Outer, *a, *b, 22, 31),
{
    let r = b.e23p.mul(a.s);
    assert(r == partial_sum(Product::Outer, *a, *b, 22, 0));
    assert(r == partial_sum(Product::Outer, *a, *b, 22, 1));
    let r = r.add(b.e3p.mul(a.e2));
    assert(r == partial_sum(Product::Outer, *a, *b, 22, 2));
    let r = r.sub(b.e2p.mul(a.e3));
    assert(r == partial_sum(Product::Outer, *a, *b, 22, 3));
    let r = r.add(b.e23.mul(a.ep));
    assert(r == partial_sum(Product::Outer, *a, *b, 22, 4));
    assert(r == partial_sum(Product::Outer, *a, *b, 22, 5));
    assert(r == partial_sum(Product::Outer, *a, *b, 22, 6));
    assert(r == partial_sum(Product::Outer, *a, *b, 22, 7));
    assert(r == partial_sum(Product::Outer, *a, *b, 22, 8));
    assert(r == partial_sum(Product::Outer, *a, *b, 22, 9));
    let r = r.add(b.ep.mul(a.e23));
    assert(r == partial_sum(Product::Outer, *a, *b, 22, 10));
    let r = r.sub(b.e3.mul(a.e2p));
    assert(r == partial_sum(Product::Outer, *a, *b, 22, 11));
    assert(r == partial_sum(Product::Outer, *a, *b, 22, 12));
    let r = r.add(b.e2.mul(a.e3p));
    assert(r == partial_sum(Product::Outer, *a, *b, 22, 13));
    assert(r == partial_sum(Product::Outer, *a, *b, 22, 14));
    assert(r == partial_sum(Product::Outer, *a, *b, 22, 15));
    assert(r == partial_sum(Product::Outer, *a, *b, 22, 16));
    assert(r == partial_sum(Product::Outer, *a, *b, 22, 17));
    assert(r == partial_sum(Product::Outer, *a, *b, 22, 18));
    assert(r == partial_sum(Product::Outer, *a, *b, 22, 19));
    assert(r == partial_sum(Product::Outer, *a, *b, 22, 20));
    assert(r == partial_sum(Product::Outer, *a, *b, 22, 21));
    let r = r.add(b.s.mul(a.e23p));
    assert(r == partial_sum(Product::Outer, *a, *b, 22, 22));
    assert(r == partial_sum(Product::Outer, *a, *b, 22, 23));
    assert(r == partial_sum(Product::Outer, *a, *b, 22, 24));
    assert(r == partial_sum(Product::Outer, *a, *b, 22, 25));
    assert(r == partial_sum(Product::Outer, *a, *b, 22, 26));
    assert(r == partial_sum(Product::Outer, *a, *b, 22, 27));
    assert(r == partial_sum(Product::Outer, *a, *b, 22, 28));
    assert(r == partial_sum(Product::Outer, *a, *b, 22, 29));
    assert(r == partial_sum(Product::Outer, *a, *b, 22, 30));
    assert(r == partial_sum(Product::Outer, *a, *b, 22, 31));
    r
}

/// The coefficient of `e23n` in the outer product of `a` and `b`.
fn outer_e23n<T: Field>(a: &R410<T>, b: &R410<T>) -> (r: T)
    ensures
        r == partial_sum(Product::Outer, *a, *b, 23, 31),
{
    let r = b.e23n.mul(a.s);
    assert(r == partial_sum(Product::Outer, *a, *b, 23, 0));
    assert(r == partial_sum(Product::Outer, *a, *b, 23, 1));
    let r = r.add(b.e3n.mul(a.e2));
    assert(r == partial_sum(Product::Outer, *a, *b, 23, 2));
    let r = r.sub(b.e2n.mul(a.e3));
    assert(r == partial_sum(Product::Outer, *a, *b, 23, 3));
    assert(r == partial_sum(Product::Outer, *a, *b, 23, 4));
    let r = r.add(b.e23.mul(a.en));
    assert(r == partial_sum(Product::Outer, *a, *b, 23, 5));
    assert(r == partial_sum(Product::Outer, *a, *b, 23, 6));
    assert(r == partial_sum(Product::Outer, *a, *b, 23, 7));
    assert(r == partial_sum(Product::Outer, *a, *b, 23, 8));
    assert(r == partial_sum(Product::Outer, *a, *b, 23, 9));
    let r = r.add(b.en.mul(a.e23));
    assert(r == partial_sum(Product::Outer, *a, *b, 23, 10));
    assert(r == partial_sum(Product::Outer, *a, *b, 23, 11));
    let r = r.sub(b.e3.mul(a.e2n));
    assert(r == partial_sum(Product::Outer, *a, *b, 23, 12));
    assert(r == partial_sum(Product::Outer, *a, *b, 23, 13));
    let r = r.add(b.e2.mul(a.e3n));
    assert(r == partial_sum(Product::Outer, *a, *b, 23, 14));
    assert(r == partial_sum(Product::Outer, *a, *b, 23, 15));
    assert(r == partial_sum(Product::Outer, *a, *b, 23, 16));
    assert(r == partial_sum(Product::Outer, *a, *b, 23, 17));
    assert(r == partial_sum(Product::Outer, *a, *b, 23, 18));
    assert(r == partial_sum(Product::Outer, *a, *b, 23, 19));
    assert(r == partial_sum(Product::Outer, *a, *b, 23, 20));
    assert(r == partial_sum(Product::Outer, *a, *b, 23, 21));
    assert(r == partial_sum(Product::Outer, *a, *b, 23, 22));
    let r = r.add(b.s.mul(a.e23n));
    assert(r == partial_sum(Product::Outer, *a, *b, 23, 23));
    assert(r == partial_sum(Product::Outer, *a, *b, 23, 24));
    assert(r == partial_sum(Product::Outer, *a, *b, 23, 25));
    assert(r == partial_sum(Product::Outer, *a, *b, 23, 26));
    assert(r == partial_sum(Product::Outer, *a, *b, 23, 27));
    assert(r == partial_sum(Product::Outer, *a, *b, 23, 28));
    assert(r == partial_sum(Product::Outer, *a, *b, 23, 29));
    assert(r == partial_sum(Product::Outer, *a, *b, 23, 30));
    assert(r == partial_sum(Product::Outer, *a, *b, 23, 31));
    r
}

/// The coefficient of `e2pn` in the outer product of `a` and `b`.
fn outer_e2pn<T: Field>(a: &R410<T>, b: &R410<T>) -> (r: T)
    ensures
        r == partial_sum(Product::Outer, *a, *b, 24, 31),
{
    let r = b.e2pn.mul(a.s);
    assert(r == partial_sum(Product::Outer, *a, *b, 24, 0));
    assert(r == partial_sum(Product::Outer, *a, *b, 24, 1));
    let r = r.add(b.epn.mul(a.e2));
    assert(r == partial_sum(Product::Outer, *a, *b, 24, 2));
    assert(r == partial_sum(Product::Outer, *a, *b, 24, 3));
    let r = r.sub(b.e2n.mul(a.ep));
    assert(r == partial_sum(Product::Outer, *a, *b, 24, 4));
    let r = r.add(b.e2p.mul(a.en));
    assert(r == partial_sum(Product::Outer, *a, *b, 24, 5));
    assert(r == partial_sum(Product::Outer, *a, *b, 24, 6));
    assert(r == partial_sum(Product::Outer, *a, *b, 24, 7));
    assert(r == partial_sum(Product::Outer, *a, *b, 24, 8));
    assert(r == partial_sum(Product::Outer, *a, *b, 24, 9));
    assert(r == partial_sum(Product::Outer, *a, *b, 24, 10));
    let r = r.add(b.en.mul(a.e2p));
    assert(r == partial_sum(Product::Outer, *a, *b, 24, 11));
    let r = r.sub(b.ep.mul(a.e2n));
    assert(r == partial_sum(Product::Outer, *a, *b, 24, 12));
    assert(r == partial_sum(Product::Outer, *a, *b, 24, 13));
    assert(r == partial_sum(Product::Outer, *a, *b, 24, 14));
    let r = r.add(b.e2.mul(a.epn));
    assert(r == partial_sum(Product::Outer, *a, *b, 24, 15));
    assert(r == partial_sum(Product::Outer, *a, *b, 24, 16));
    assert(r == partial_sum(Product::Outer, *a, *b, 24, 17));
    assert(r == partial_sum(Product::Outer, *a, *b, 24, 18));
    assert(r == partial_sum(Product::Outer, *a, *b, 24, 19));
    assert(r == partial_sum(Product::Outer, *a, *b, 24, 20));
    assert(r == partial_sum(Product::Outer, *a, *b, 24, 21));
    assert(r == partial_sum(Product::Outer, *a, *b, 24, 22));
    assert(r == partial_sum(Product::Outer, *a, *b, 24, 23));
    let r = r.add(b.s.mul(a.e2pn));
    assert(r == partial_sum(Product::Outer, *a, *b, 24, 24));
    assert(r == partial_sum(Product::Outer, *a, *b, 24, 25));
    assert(r == partial_sum(Product::Outer, *a, *b, 24, 26));
    assert(r == partial_sum(Product::Outer, *a, *b, 24, 27));
    assert(r == partial_sum(Product::Outer, *a, *b, 24, 28));
    assert(r == partial_sum(Product::Outer, *a, *b, 24, 29));
    assert(r == partial_sum(Product::Outer, *a, *b, 24, 30));
    assert(r == partial_sum(Product::Outer, *a, *b, 24, 31));
    r
}

/// The coefficient of `e3pn` in the outer product of `a` and `b`.
fn outer_e3pn<T: Field>(a: &R410<T>, b: &R410<T>) -> (r: T)
    ensures
        r == partial_sum(Product::Outer, *a, *b, 25, 31),
{
    let r = b.e3pn.mul(a.s);
    assert(r == partial_sum(Product::Outer, *a, *b, 25, 0));
    assert(r == partial_sum(Product::Outer, *a, *b, 25, 1));
    assert(r == partial_sum(Product::Outer, *a, *b, 25, 2));
    let r = r.add(b.epn.mul(a.e3));
    assert(r == partial_sum(Product::Outer, *a, *b, 25, 3));
    let r = r.sub(b.e3n.mul(a.ep));
    assert(r == partial_sum(Product::Outer, *a, *b, 25, 4));
    let r = r.add(b.e3p.mul(a.en));
    assert(r == partial_sum(Product::Outer, *a, *b, 25, 5));
    assert(r == partial_sum(Product::Outer, *a, *b, 25, 6));
    assert(r == partial_sum(Product::Outer, *a, *b, 25, 7));
    assert(r == partial_sum(Product::Outer, *a, *b, 25, 8));
    assert(r == partial_sum(Product::Outer, *a, *b, 25, 9));
    assert(r == partial_sum(Product::Outer, *a, *b, 25, 10));
    assert(r == partial_sum(Product::Outer, *a, *b, 25, 11));
    assert(r == partial_sum(Product::Outer, *a, *b, 25, 12));
    let r = r.add(b.en.mul(a.e3p));
    assert(r == partial_sum(Product::Outer, *a, *b, 25, 13));
    let r = r.sub(b.ep.mul(a.e3n));
    assert(r == partial_sum(Product::Outer, *a, *b, 25, 14));
    let r = r.add(b.e3.mul(a.epn));
    assert(r == partial_sum(Product::Outer, *a, *b, 25, 15));
    assert(r == partial_sum(Product::Outer, *a, *b, 25, 16));
    assert(r == partial_sum(Product::Outer, *a, *b, 25, 17));
    assert(r == partial_sum(Product::Outer, *a, *b, 25, 18));
    assert(r == partial_sum(Product::Outer, *a, *b, 25, 19));
    assert(r == partial_sum(Product::Outer, *a, *b, 25, 20));
    assert(r == partial_sum(Product::Outer, *a, *b, 25, 21));
    assert(r == partial_sum(Product::Outer, *a, *b, 25, 22));
    assert(r == partial_sum(Product::Outer, *a, *b, 25, 23));
    assert(r == partial_sum(Product::Outer, *a, *b, 25, 24));
    let r = r.add(b.s.mul(a.e3pn));
    assert(r == partial_sum(Product::Outer, *a, *b, 25, 25));
    assert(r == partial_sum(Product::Outer, *a, *b, 25, 26));
    assert(r == partial_sum(Product::Outer, *a, *b, 25, 27));
    assert(r == partial_sum(Product::Outer, *a, *b, 25, 28));
    assert(r == partial_sum(Product::Outer, *a, *b, 25, 29));
    assert(r == partial_sum(Product::Outer, *a, *b, 25, 30));
    assert(r == partial_sum(Product::Outer, *a, *b, 25, 31));
    r
}

/// The coefficient of `e123p` in the outer product of `a` and `b`.
fn outer_e123p<T: Field>(a: &R410<T>, b: &R410<T>) -> (r: T)
    ensures
        r == partial_sum(Product::Outer, *a, *b, 26, 31),
{
    let r = b.e123p.mul(a.s);
    assert(r == partial_sum(Product::Outer, *a, *b, 26, 0));
    let r = r.add(b.e23p.mul(a.e1));
    assert(r == partial_sum(Product::Outer, *a, *b, 26, 1));
    let r = r.sub(b.e13p.mul(a.e2));
    assert(r == partial_sum(Product::Outer, *a, *b, 26, 2));
    let r = r.add(b.e12p.mul(a.e3));
    assert(r == partial_sum(Product::Outer, *a, *b, 26, 3));
    let r = r.sub(b.e123.mul(a.ep));
    assert(r == partial_sum(Product::Outer, *a, *b, 26, 4));
    assert(r == partial_sum(Product::Outer, *a, *b, 26, 5));
    let r = r.add(b.e3p.mul(a.e12));
    assert(r == partial_sum(Product::Outer, *a, *b, 26, 6));
    let r = r.sub(b.e2p.mul(a.e13));
    assert(r == partial_sum(Product::Outer, *a, *b, 26, 7));
    let r = r.add(b.e23.mul(a.e1p));
    assert(r == partial_sum(Product::Outer, *a, *b, 26, 8));
    assert(r == partial_sum(Product::Outer, *a, *b, 26, 9));
    let r = r.add(b.e1p.mul(a.e23));
    assert(r == partial_sum(Product::Outer, *a, *b, 26, 10));
    let r = r.sub(b.e13.mul(a.e2p));
    assert(r == partial_sum(Product::Outer, *a, *b, 26, 11));
    assert(r == partial_sum(Product::Outer, *a, *b, 26, 12));
    let r = r.add(b.e12.mul(a.e3p));
    assert(r == partial_sum(Product::Outer, *a, *b, 26, 13));
    assert(r == partial_sum(Product::Outer, *a, *b, 26, 14));
    assert(r == partial_sum(Product::Outer, *a, *b, 26, 15));
    let r = r.add(b.ep.mul(a.e123));
    assert(r == partial_sum(Product::Outer, *a, *b, 26, 16));
    let r = r.sub(b.e3.mul(a.e12p));
    assert(r == partial_sum(Product::Outer, *a, *b, 26, 17));
    assert(r == partial_sum(Product::Outer, *a, *b, 26, 18));
    let r = r.add(b.e2.mul(a.e13p));
    assert(r == partial_sum(Product::Outer, *a, *b, 26, 19));
    assert(r == partial_sum(Product::Outer, *a, *b, 26, 20));
    assert(r == partial_sum(Product::Outer, *a, *b, 26, 21));
    let r = r.sub(b.e1.mul(a.e23p));
    assert(r == partial_sum(Product::Outer, *a, *b, 26, 22));
    assert(r == partial_sum(Product::Outer, *a, *b, 26, 23));
    assert(r == partial_sum(Product::Outer, *a, *b, 26, 24));
    assert(r == partial_sum(Product::Outer, *a, *b, 26, 25));
    let r = r.add(b.s.mul(a.e123p));
    assert(r == partial_sum(Product::Outer, *a, *b, 26, 26));
    assert(r == partial_sum(Product::Outer, *a, *b, 26, 27));
    assert(r == partial_sum(Product::Outer, *a, *b, 26, 28));
    assert(r == partial_sum(Product::Outer, *a, *b, 26, 29));
    assert(r == partial_sum(Product::Outer, *a, *b, 26, 30));
    assert(r == partial_sum(Product::Outer, *a, *b, 26, 31));
    r
}

/// The coefficient of `e123n` in the outer product of `a` and `b`.
fn outer_e123n<T: Field>(a: &R410<T>, b: &R410<T>) -> (r: T)
    ensures
        r == partial_sum(Product::Outer, *a, *b, 27, 31),
{
    let r = b.e123n.mul(a.s);
    assert(r == partial_sum(Product::Outer, *a, *b, 27, 0));
    let r = r.add(b.e23n.mul(a.e1));
    assert(r == partial_sum(Product::Outer, *a, *b, 27, 1));
    let r = r.sub(b.e13n.mul(a.e2));
    assert(r == partial_sum(Product::Outer, *a, *b, 27, 2));
    let r = r.add(b.e12n.mul(a.e3));
    assert(r == partial_sum(Product::Outer, *a, *b, 27, 3));
    assert(r == partial_sum(Product::Outer, *a, *b, 27, 4));
    let r = r.sub(b.e123.mul(a.en));
    assert(r == partial_sum(Product::Outer, *a, *b, 27, 5));
    let r = r.add(b.e3n.mul(a.e12));
    assert(r == partial_sum(Product::Outer, *a, *b, 27, 6));
    let r = r.sub(b.e2n.mul(a.e13));
    assert(r == partial_sum(Product::Outer, *a, *b, 27, 7));
    assert(r == partial_sum(Product::Outer, *a, *b, 27, 8));
    let r = r.add(b.e23.mul(a.e1n));
    assert(r == partial_sum(Product::Outer, *a, *b, 27, 9));
    let r = r.add(b.e1n.mul(a.e23));
    assert(r == partial_sum(Product::Outer, *a, *b, 27, 10));
    assert(r == partial_sum(Product::Outer, *a, *b, 27, 11));
    let r = r.sub(b.e13.mul(a.e2n));
    assert(r == partial_sum(Product::Outer, *a, *b, 27, 12));
    assert(r == partial_sum(Product::Outer, *a, *b, 27, 13));
    let r = r.add(b.e12.mul(a.e3n));
    assert(r == partial_sum(Product::Outer, *a, *b, 27, 14));
    assert(r == partial_sum(Product::Outer, *a, *b, 27, 15));
    let r = r.add(b.en.mul(a.e123));
    assert(r == partial_sum(Product::Outer, *a, *b, 27, 16));
    assert(r == partial_sum(Product::Outer, *a, *b, 27, 17));
    let r = r.sub(b.e3.mul(a.e12n));
    assert(r == partial_sum(Product::Outer, *a, *b, 27, 18));
    assert(r == partial_sum(Product::Outer, *a, *b, 27, 19));
    let r = r.add(b.e2.mul(a.e13n));
    assert(r == partial_sum(Product::Outer, *a, *b, 27, 20));
    assert(r == partial_sum(Product::Outer, *a, *b, 27, 21));
    assert(r == partial_sum(Product::Outer, *a, *b, 27, 22));
    let r = r.sub(b.e1.mul(a.e23n));
    assert(r == partial_sum(Product::Outer, *a, *b, 27, 23));
    assert(r == partial_sum(Product::Outer, *a, *b, 27, 24));
    assert(r == partial_sum(Product::Outer, *a, *b, 27, 25));
    assert(r == partial_sum(Product::Outer, *a, *b, 27, 26));
    let r = r.add(b.s.mul(a.e123n));
    assert(r == partial_sum(Product::Outer, *a, *b, 27, 27));
    assert(r == partial_sum(Product::Outer, *a, *b, 27, 28));
    assert(r == partial_sum(Product::Outer, *a, *b, 27, 29));
    assert(r == partial_sum(Product::Outer, *a, *b, 27, 30));
    assert(r == partial_sum(Product::Outer, *a, *b, 27, 31));
    r
}

/// The coefficient of `e12pn` in the outer product of `a` and `b`.
fn outer_e12pn<T: Field>(a: &R410<T>, b: &R410<T>) -> (r: T)
    ensures
        r == partial_sum(Product::Outer, *a, *b, 28, 31),
{
    let r = b.e12pn.mul(a.s);
    assert(r == partial_sum(Product::Outer, *a, *b, 28, 0));
    let r = r.add(b.e2pn.mul(a.e1));
    assert(r == partial_sum(Product::Outer, *a, *b, 28, 1));
    let r = r.sub(b.e1pn.mul(a.e2));
    assert(r == partial_sum(Product::Outer, *a, *b, 28, 2));
    assert(r == partial_sum(Product::Outer, *a, *b, 28, 3));
    let r = r.add(b.e12n.mul(a.ep));
    assert(r == partial_sum(Product::Outer, *a, *b, 28, 4));
    let r = r.sub(b.e12p.mul(a.en));
    assert(r == partial_sum(Product::Outer, *a, *b, 28, 5));
    let r = r.add(b.epn.mul(a.e12));
    assert(r == partial_sum(Product::Outer, *a, *b, 28, 6));
    assert(r == partial_sum(Product::Outer, *a, *b, 28, 7));
    let r = r.sub(b.e2n.mul(a.e1p));
    assert(r == partial_sum(Product::Outer, *a, *b, 28, 8));
    let r = r.add(b.e2p.mul(a.e1n));
    assert(r == partial_sum(Product::Outer, *a, *b, 28, 9));
    assert(r == partial_sum(Product::Outer, *a, *b, 28, 10));
    let r = r.add(b.e1n.mul(a.e2p));
    assert(r == partial_sum(Product::Outer, *a, *b, 28, 11));
    let r = r.sub(b.e1p.mul(a.e2n));
    assert(r == partial_sum(Product::Outer, *a, *b, 28, 12));
    assert(r == partial_sum(Product::Outer, *a, *b, 28, 13));
    assert(r == partial_sum(Product::Outer, *a, *b, 28, 14));
    let r = r.add(b.e12.mul(a.epn));
    assert(r == partial_sum(Product::Outer, *a, *b, 28, 15));
    assert(r == partial_sum(Product::Outer, *a, *b, 28, 16));
    let r = r.add(b.en.mul(a.e12p));
    assert(r == partial_sum(Product::Outer, *a, *b, 28, 17));
    let r = r.sub(b.ep.mul(a.e12n));
    assert(r == partial_sum(Product::Outer, *a, *b, 28, 18));
    assert(r == partial_sum(Product::Outer, *a, *b, 28, 19));
    assert(r == partial_sum(Product::Outer, *a, *b, 28, 20));
    let r = r.add(b.e2.mul(a.e1pn));
    assert(r == partial_sum(Product::Outer, *a, *b, 28, 21));
    assert(r == partial_sum(Product::Outer, *a, *b, 28, 22));
    assert(r == partial_sum(Product::Outer, *a, *b, 28, 23));
    let r = r.sub(b.e1.mul(a.e2pn));
    assert(r == partial_sum(Product::Outer, *a, *b, 28, 24));
    assert(r == partial_sum(Product::Outer, *a, *b, 28, 25));
    assert(r == partial_sum(Product::Outer, *a, *b, 28, 26));
    assert(r == partial_sum(Product::Outer, *a, *b, 28, 27));
    let r = r.add(b.s.mul(a.e12pn));
    assert(r == partial_sum(Product::Outer, *a, *b, 28, 28));
    assert(r == partial_sum(Product::Outer, *a, *b, 28, 29));
    assert(r == partial_sum(Product::Outer, *a, *b, 28, 30));
    assert(r == partial_sum(Product::Outer, *a, *b, 28, 31));
    r
}

/// The coefficient of `e13pn` in the outer product of `a` and `b`.
fn outer_e13pn<T: Field>(a: &R410<T>, b: &R410<T>) -> (r: T)
    ensures
        r == partial_sum(Product::Outer, *a, *b, 29, 31),
{
    let r = b.e13pn.mul(a.s);
    assert(r == partial_sum(Product::Outer, *a, *b, 29, 0));
    let r = r.add(b.e3pn.mul(a.e1));
    assert(r == partial_sum(Product::Outer, *a, *b, 29, 1));
    assert(r == partial_sum(Product::Outer, *a, *b, 29, 2));
    let r = r.sub(b.e1pn.mul(a.e3));
    assert(r == partial_sum(Product::Outer, *a, *b, 29, 3));
    let r = r.add(b.e13n.mul(a.ep));
    assert(r == partial_sum(Product::Outer, *a, *b, 29, 4));
    let r = r.sub(b.e13p.mul(a.en));
    assert(r == partial_sum(Product::Outer, *a, *b, 29, 5));
    assert(r == partial_sum(Product::Outer, *a, *b, 29, 6));
    let r = r.add(b.epn.mul(a.e13));
    assert(r == partial_sum(Product::Outer, *a, *b, 29, 7));
    let r = r.sub(b.e3n.mul(a.e1p));
    assert(r == partial_sum(Product::Outer, *a, *b, 29, 8));
    let r = r.add(b.e3p.mul(a.e1n));
    assert(r == partial_sum(Product::Outer, *a, *b, 29, 9));
    assert(r == partial_sum(Product::Outer, *a, *b, 29, 10));
    assert(r == partial_sum(Product::Outer, *a, *b, 29, 11));
    assert(r == partial_sum(Product::Outer, *a, *b, 29, 12));
    let r = r.add(b.e1n.mul(a.e3p));
    assert(r == partial_sum(Product::Outer, *a, *b, 29, 13));
    let r = r.sub(b.e1p.mul(a.e3n));
    assert(r == partial_sum(Product::Outer, *a, *b, 29, 14));
    let r = r.add(b.e13.mul(a.epn));
    assert(r == partial_sum(Product::Outer, *a, *b, 29, 15));
    assert(r == partial_sum(Product::Outer, *a, *b, 29, 16));
    assert(r == partial_sum(Product::Outer, *a, *b, 29, 17));
    assert(r == partial_sum(Product::Outer, *a, *b, 29, 18));
    let r = r.add(b.en.mul(a.e13p));
    assert(r == partial_sum(Product::Outer, *a, *b, 29, 19));
    let r = r.sub(b.ep.mul(a.e13n));
    assert(r == partial_sum(Product::Outer, *a, *b, 29, 20));
    let r = r.add(b.e3.mul(a.e1pn));
    assert(r == partial_sum(Product::Outer, *a, *b, 29, 21));
    assert(r == partial_sum(Product::Outer, *a, *b, 29, 22));
    assert(r == partial_sum(Product::Outer, *a, *b, 29, 23));
    assert(r == partial_sum(Product::Outer, *a, *b, 29, 24));
    let r = r.sub(b.e1.mul(a.e3pn));
    assert(r == partial_sum(Product::Outer, *a, *b, 29, 25));
    assert(r == partial_sum(Product::Outer, *a, *b, 29, 26));
    assert(r == partial_sum(Product::Outer, *a, *b, 29, 27));
    assert(r == partial_sum(Product::Outer, *a, *b, 29, 28));
    let r = r.add(b.s.mul(a.e13pn));
    assert(r == partial_sum(Product::Outer, *a, *b, 29, 29));
    assert(r == partial_sum(Product::Outer, *a, *b, 29, 30));
    assert(r == partial_sum(Product::Outer, *a, *b, 29, 31));
    r
}

/// The coefficient of `e23pn` in the outer product of `a` and `b`.
fn outer_e23pn<T: Field>(a: &R410<T>, b: &R410<T>) -> (r: T)
    ensures
        r == partial_sum(Product::Outer, *a, *b, 30, 31),
{
    let r = b.e23pn.mul(a.s);
    assert(r == partial_sum(Product::Outer, *a, *b, 30, 0));
    assert(r == partial_sum(Product::Outer, *a, *b, 30, 1));
    let r = r.add(b.e3pn.mul(a.e2));
    assert(r == partial_sum(Product::Outer, *a, *b, 30, 2));
    let r = r.sub(b.e2pn.mul(a.e3));
    assert(r == partial_sum(Product::Outer, *a, *b, 30, 3));
    let r = r.add(b.e23n.mul(a.ep));
    assert(r == partial_sum(Product::Outer, *a, *b, 30, 4));
    let r = r.sub(b.e23p.mul(a.en));
    assert(r == partial_sum(Product::Outer, *a, *b, 30, 5));
    assert(r == partial_sum(Product::Outer, *a, *b, 30, 6));
    assert(r == partial_sum(Product::Outer, *a, *b, 30, 7));
    assert(r == partial_sum(Product::Outer, *a, *b, 30, 8));
    assert(r == partial_sum(Product::Outer, *a, *b, 30, 9));
    let r = r.add(b.epn.mul(a.e23));
    assert(r == partial_sum(Product::Outer, *a, *b, 30, 10));
    let r = r.sub(b.e3n.mul(a.e2p));
    assert(r == partial_sum(Product::Outer, *a, *b, 30, 11));
    let r = r.add(b.e3p.mul(a.e2n));
    assert(r == partial_sum(Product::Outer, *a, *b, 30, 12));
    let r = r.add(b.e2n.mul(a.e3p));
    assert(r == partial_sum(Product::Outer, *a, *b, 30, 13));
    let r = r.sub(b.e2p.mul(a.e3n));
    assert(r == partial_sum(Product::Outer, *a, *b, 30, 14));
    let r = r.add(b.e23.mul(a.epn));
    assert(r == partial_sum(Product::Outer, *a, *b, 30, 15));
    assert(r == partial_sum(Product::Outer, *a, *b, 30, 16));
    assert(r == partial_sum(Product::Outer, *a, *b, 30, 17));
    assert(r == partial_sum(Product::Outer, *a, *b, 30, 18));
    assert(r == partial_sum(Product::Outer, *a, *b, 30, 19));
    assert(r == partial_sum(Product::Outer, *a, *b, 30, 20));
    assert(r == partial_sum(Product::Outer, *a, *b, 30, 21));
    let r = r.add(b.en.mul(a.e23p));
    assert(r == partial_sum(Product::Outer, *a, *b, 30, 22));
    let r = r.sub(b.ep.mul(a.e23n));
    assert(r == partial_sum(Product::Outer, *a, *b, 30, 23));
    let r = r.add(b.e3.mul(a.e2pn));
    assert(r == partial_sum(Product::Outer, *a, *b, 30, 24));
    let r = r.sub(b.e2.mul(a.e3pn));
    assert(r == partial_sum(Product::Outer, *a, *b, 30, 25));
    assert(r == partial_sum(Product::Outer, *a, *b, 30, 26));
    assert(r == partial_sum(Product::Outer, *a, *b, 30, 27));
    assert(r == partial_sum(Product::Outer, *a, *b, 30, 28));
    assert(r == partial_sum(Product::Outer, *a, *b, 30, 29));
    let r = r.add(b.s.mul(a.e23pn));
    assert(r == partial_sum(Product::Outer, *a, *b, 30, 30));
    assert(r == partial_sum(Product::Outer, *a, *b, 30, 31));
    r
}

/// The coefficient of `e123pn` in the outer product of `a` and `b`.
fn outer_e123pn<T: Field>(a: &R410<T>, b: &R410<T>) -> (r: T)
    ensures
        r == partial_sum(Product::Outer, *a, *b, 31, 31),
{
    let r = b.e123pn.mul(a.s);
    assert(r == partial_sum(Product::Outer, *a, *b, 31, 0));
    let r = r.add(b.e23pn.mul(a.e1));
    assert(r == partial_sum(Product::Outer, *a, *b, 31, 1));
    let r = r.sub(b.e13pn.mul(a.e2));
    assert(r == partial_sum(Product::Outer, *a, *b, 31, 2));
    let r = r.add(b.e12pn.mul(a.e3));
    assert(r == partial_sum(Product::Outer, *a, *b, 31, 3));
    let r = r.sub(b.e123n.mul(a.ep));
    assert(r == partial_sum(Product::Outer, *a, *b, 31, 4));
    let r = r.add(b.e123p.mul(a.en));
    assert(r == partial_sum(Product::Outer, *a, *b, 31, 5));
    let r = r.add(b.e3pn.mul(a.e12));
    assert(r == partial_sum(Product::Outer, *a, *b, 31, 6));
    let r = r.sub(b.e2pn.mul(a.e13));
    assert(r == partial_sum(Product::Outer, *a, *b, 31, 7));
    let r = r.add(b.e23n.mul(a.e1p));
    assert(r == partial_sum(Product::Outer, *a, *b, 31, 8));
    let r = r.sub(b.e23p.mul(a.e1n));
    assert(r == partial_sum(Product::Outer, *a, *b, 31, 9));
    let r = r.add(b.e1pn.mul(a.e23));
    assert(r == partial_sum(Product::Outer, *a, *b, 31, 10));
    let r = r.sub(b.e13n.mul(a.e2p));
    assert(r == partial_sum(Product::Outer, *a, *b, 31, 11));
    let r = r.add(b.e13p.mul(a.e2n));
    assert(r == partial_sum(Product::Outer, *a, *b, 31, 12));
    let r = r.add(b.e12n.mul(a.e3p));
    assert(r == partial_sum(Product::Outer, *a, *b, 31, 13));
    let r = r.sub(b.e12p.mul(a.e3n));
    assert(r == partial_sum(Product::Outer, *a, *b, 31, 14));
    let r = r.add(b.e123.mul(a.epn));
    assert(r == partial_sum(Product::Outer, *a, *b, 31, 15));
    let r = r.add(b.epn.mul(a.e123));
    assert(r == partial_sum(Product::Outer, *a, *b, 31, 16));
    let r = r.sub(b.e3n.mul(a.e12p));
    assert(r == partial_sum(Product::Outer, *a, *b, 31, 17));
    let r = r.add(b.e3p.mul(a.e12n));
    assert(r == partial_sum(Product::Outer, *a, *b, 31, 18));
    let r = r.add(b.e2n.mul(a.e13p));
    assert(r == partial_sum(Product::Outer, *a, *b, 31, 19));
    let r = r.sub(b.e2p.mul(a.e13n));
    assert(r == partial_sum(Product::Outer, *a, *b, 31, 20));
    let r = r.add(b.e23.mul(a.e1pn));
    assert(r == partial_sum(Product::Outer, *a, *b, 31, 21));
    let r = r.sub(b.e1n.mul(a.e23p));
    assert(r == partial_sum(Product::Outer, *a, *b, 31, 22));
    let r = r.add(b.e1p.mul(a.e23n));
    assert(r == partial_sum(Product::Outer, *a, *b, 31, 23));
    let r = r.sub(b.e13.mul(a.e2pn));
    assert(r == partial_sum(Product::Outer, *a, *b, 31, 24));
    let r = r.add(b.e12.mul(a.e3pn));
    assert(r == partial_sum(Product::Outer, *a, *b, 31, 25));
    let r = r.add(b.en.mul(a.e123p));
    assert(r == partial_sum(Product::Outer, *a, *b, 31, 26));
    let r = r.sub(b.ep.mul(a.e123n));
    assert(r == partial_sum(Product::Outer, *a, *b, 31, 27));
    let r = r.add(b.e3.mul(a.e12pn));
    assert(r == partial_sum(Product::Outer, *a, *b, 31, 28));
    let r = r.sub(b.e2.mul(a.e13pn));
    assert(r == partial_sum(Product::Outer, *a, *b, 31, 29));
    let r = r.add(b.e1.mul(a.e23pn));
    assert(r == partial_sum(Product::Outer, *a, *b, 31, 30));
    let r = r.add(b.s.mul(a.e123pn));
    assert(r == partial_sum(Product::Outer, *a, *b, 31, 31));
    r
}

} // verus!
