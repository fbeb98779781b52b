//! The shape of a dense feed-forward network: how many nodes each layer joins,
//! where each weight lies in a layer's flat buffer, and how layers chain.

use vstd::prelude::*;

verus! {

/// A dense layer's shape: every one of its input nodes is joined to every one
/// of its output nodes.
#[derive(Clone, Copy, Debug, PartialEq, Eq, Structural)]
pub struct LayerShape {
    pub in_nodes_num: usize,
    pub out_nodes_num: usize,
}

impl LayerShape {
    /// One weight for each pair of an input node and an output node.
    pub open spec fn weight_count(self) -> nat {
        (self.in_nodes_num * self.out_nodes_num) as nat
    }

    /// One bias for each output node.
    pub open spec fn bias_count(self) -> nat {
        self.out_nodes_num as nat
    }

    /// Whether the layer has an input node `in_node` and an output node
    /// `out_node`.
    pub open spec fn joins(self, in_node: int, out_node: int) -> bool {
        0 <= in_node < self.in_nodes_num && 0 <= out_node < self.out_nodes_num
    }

    /// Where the weight from `in_node` to `out_node` lies in the flat buffer:
    /// the weights of one output node lie side by side, in the order of the
    /// input nodes.
    pub open spec fn spec_weight_index(self, in_node: int, out_node: int) -> int {
        out_node * self.in_nodes_num + in_node
    }

    pub fn new(in_nodes_num: usize, out_nodes_num: usize) -> (shape: LayerShape)
        ensures
            shape == (LayerShape { in_nodes_num, out_nodes_num }),
    {
        LayerShape { in_nodes_num, out_nodes_num }
    }

    /// The length of the weight buffer, or `None` where no buffer can be that
    /// long.
    pub fn weights_len(&self) -> (len: Option<usize>)
        ensures
            match len {
                Some(len) => len == self.weight_count(),
                None => self.weight_count() > usize::MAX,
            },
    {
        self.in_nodes_num.checked_mul(self.out_nodes_num)
    }

    /// The length of the bias buffer.
    pub fn biases_len(&self) -> (len: usize)
        ensures
            len == self.bias_count(),
    {
        self.out_nodes_num
    }

    /// Whether buffers of these lengths hold the layer's parameters and
    /// nothing else.
    pub fn holds(&self, weights_len: usize, biases_len: usize) -> (held: bool)
        ensures
            held == (weights_len == self.weight_count() && biases_len == self.bias_count()),
    {
        match self.weights_len() {
            Some(len) => weights_len == len && biases_len == self.out_nodes_num,
            None => false,
        }
    }

    /// Where the weight from `in_node` to `out_node` lies in the weight
    /// buffer.
    pub fn weight_index(&self, in_node: usize, out_node: usize) -> (index: usize)
        requires
            self.joins(in_node as int, out_node as int),
            self.weight_count() <= usize::MAX,
        ensures
            index == self.spec_weight_index(in_node as int, out_node as int),
            index < self.weight_count(),
    {
        proof {
            lemma_weight_index_in_range(*self, in_node as int, out_node as int);
        }
        out_node * self.in_nodes_num + in_node
    }
}

/// Every weight of a layer has a place inside the weight buffer.
pub proof fn lemma_weight_index_in_range(shape: LayerShape, in_node: int, out_node: int)
    requires
        shape.joins(in_node, out_node),
    ensures
        0 <= shape.spec_weight_index(in_node, out_node) < shape.weight_count(),
{
    let width = shape.in_nodes_num as int;
    let height = shape.out_nodes_num as int;
    assert(0 <= out_node * width && (out_node + 1) * width <= height * width)
        by (nonlinear_arith)
        requires
            0 <= out_node < height,
            0 <= width,
    ;
    assert((out_node + 1) * width == out_node * width + width) by (nonlinear_arith);
}

/// No two weights of a layer share a place in the weight buffer.
pub proof fn lemma_weight_index_injective(
    shape: LayerShape,
    in_a: int,
    out_a: int,
    in_b: int,
    out_b: int,
)
    requires
        shape.joins(in_a, out_a),
        shape.joins(in_b, out_b),
        shape.spec_weight_index(in_a, out_a) == shape.spec_weight_index(in_b, out_b),
    ensures
        in_a == in_b,
        out_a == out_b,
{
    let width = shape.in_nodes_num as int;
    assert(out_a == out_b) by (nonlinear_arith)
        requires
            0 <= in_a < width,
            0 <= in_b < width,
            out_a * width + in_a == out_b * width + in_b,
    ;
}

/// Every place in the weight buffer holds the weight of one pair of nodes:
/// place `index` belongs to output node `index / in_nodes_num` and input node
/// `index % in_nodes_num`.
pub proof fn lemma_weight_index_onto(shape: LayerShape, index: int)
    requires
        0 <= index < shape.weight_count(),
    ensures
        shape.joins(index % (shape.in_nodes_num as int), index / (shape.in_nodes_num as int)),
        shape.spec_weight_index(
            index % (shape.in_nodes_num as int),
            index / (shape.in_nodes_num as int),
        ) == index,
{
    let width = shape.in_nodes_num as int;
    let height = shape.out_nodes_num as int;
    assert(width > 0) by (nonlinear_arith)
        requires
            0 <= index < width * height,
            0 <= width,
    ;
    vstd::arithmetic::div_mod::lemma_fundamental_div_mod(index, width);
    let row = index / width;
    assert(width * row == row * width) by (nonlinear_arith);
    assert(row < height) by (nonlinear_arith)
        requires
            0 <= row,
            0 < width,
            row * width <= index,
            index < width * height,
    ;
}

/// The layers that a list of layer sizes asks for: layer `i` leads from
/// `layer_sizes[i]` nodes to `layer_sizes[i + 1]` nodes.
pub open spec fn shapes_of(layer_sizes: Seq<usize>) -> Seq<LayerShape> {
    Seq::new(
        (layer_sizes.len() - 1) as nat,
        |i: int| LayerShape { in_nodes_num: layer_sizes[i], out_nodes_num: layer_sizes[i + 1] },
    )
}

/// Whether each layer takes as many inputs as the layer before it gives
/// outputs.
pub open spec fn chained(layers: Seq<LayerShape>) -> bool {
    forall|i: int|
        0 <= i < layers.len() - 1 ==> (#[trigger] layers[i]).out_nodes_num == layers[i
            + 1].in_nodes_num
}

/// The layers made from a list of sizes chain, begin with the first size and
/// end with the last.
pub proof fn lemma_shapes_chain(layer_sizes: Seq<usize>)
    requires
        layer_sizes.len() >= 2,
    ensures
        shapes_of(layer_sizes).len() == layer_sizes.len() - 1,
        chained(shapes_of(layer_sizes)),
        shapes_of(layer_sizes).first().in_nodes_num == layer_sizes.first(),
        shapes_of(layer_sizes).last().out_nodes_num == layer_sizes.last(),
{
}

/// The shapes of a network's layers, in the order in which an input runs
/// through them. There is at least one layer, and the layers chain.
pub struct NetShape {
    layers: Vec<LayerShape>,
}

impl View for NetShape {
    type V = Seq<LayerShape>;

    closed spec fn view(&self) -> Seq<LayerShape> {
        self.layers@
    }
}

impl NetShape {
    #[verifier::type_invariant]
    spec fn well_formed(self) -> bool {
        self.layers@.len() >= 1 && chained(self.layers@)
    }

    /// Lays out one layer between each two neighbouring sizes.
    pub fn new(layer_sizes: &[usize]) -> (net: NetShape)
        requires
            layer_sizes@.len() >= 2,
        ensures
            net@ == shapes_of(layer_sizes@),
            net@.len() == layer_sizes@.len() - 1,
            chained(net@),
    {
        let mut layers: Vec<LayerShape> = Vec::new();
        let mut i: usize = 0;
        while i + 1 < layer_sizes.len()
            invariant
                layer_sizes@.len() >= 2,
                i + 1 <= layer_sizes.len(),
                layers@ == shapes_of(layer_sizes@).take(i as int),
            decreases layer_sizes.len() - i,
        {
            layers.push(LayerShape::new(layer_sizes[i], layer_sizes[i + 1]));
            assert(layers@ =~= shapes_of(layer_sizes@).take(i + 1));
            i += 1;
        }
        proof {
            assert(layers@ =~= shapes_of(layer_sizes@));
            lemma_shapes_chain(layer_sizes@);
        }
        NetShape { layers }
    }

    /// Takes layers as they are, where there is at least one and they chain.
    pub fn from_layers(layers: Vec<LayerShape>) -> (net: Option<NetShape>)
        ensures
            net is Some <==> layers@.len() >= 1 && chained(layers@),
            net matches Some(net) ==> net@ == layers@,
    {
        if layers.len() == 0 {
            return None;
        }
        let mut i: usize = 0;
        while i + 1 < layers.len()
            invariant
                layers@.len() >= 1,
                i + 1 <= layers.len(),
                chained(layers@.take(i + 1)),
            decreases layers.len() - i,
        {
            if layers[i].out_nodes_num != layers[i + 1].in_nodes_num {
                return None;
            }
            proof {
                let before = layers@.take(i + 1);
                let now = layers@.take(i + 2);
                assert forall|k: int| 0 <= k < now.len() - 1 implies (#[trigger] now[k]).out_nodes_num
                    == now[k + 1].in_nodes_num by {
                    if k < i {
                        assert(before[k].out_nodes_num == before[k + 1].in_nodes_num);
                    }
                }
            }
            i += 1;
        }
        assert(layers@.take(i + 1) =~= layers@);
        Some(NetShape { layers })
    }

    /// How many layers the network has: at least one.
    pub fn layers_num(&self) -> (count: usize)
        ensures
            count == self@.len(),
            count >= 1,
    {
        proof {
            use_type_invariant(self);
        }
        self.layers.len()
    }

    /// The shape of layer `index`. It gives as many outputs as the next layer
    /// takes inputs.
    pub fn layer(&self, index: usize) -> (shape: LayerShape)
        requires
            index < self@.len(),
        ensures
            shape == self@[index as int],
            index + 1 < self@.len() ==> shape.out_nodes_num == self@[index + 1].in_nodes_num,
    {
        proof {
            use_type_invariant(self);
        }
        self.layers[index]
    }

    /// The length of the vectors that the network takes.
    pub fn input_len(&self) -> (len: usize)
        ensures
            self@.len() >= 1,
            len == self@.first().in_nodes_num,
    {
        proof {
            use_type_invariant(self);
        }
        self.layers[0].in_nodes_num
    }

    /// The length of the vectors that the network gives.
    pub fn output_len(&self) -> (len: usize)
        ensures
            self@.len() >= 1,
            len == self@.last().out_nodes_num,
    {
        proof {
            use_type_invariant(self);
        }
        self.layers[self.layers.len() - 1].out_nodes_num
    }
}

} // verus!
