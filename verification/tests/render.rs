//! Tests of the scene graph: key conflict resolution and rendering.

use pgfplots::axis::plot::Coordinate2D;
use pgfplots::axis::plot::Plot2D;
use pgfplots::axis::plot::PlotKey;
use pgfplots::axis::plot::Type2D;
use pgfplots::axis::Axis;
use pgfplots::axis::AxisKey;
use pgfplots::Picture;
use pgfplots::PictureKey;

#[test]
fn empty_picture_standalone() {
    let picture = Picture::new();
    assert_eq!(
        "\\documentclass{standalone}\n\\usepackage{pgfplots}\n\\begin{document}\n\\begin{tikzpicture}\n\\end{tikzpicture}\n\\end{document}",
        picture.standalone_string()
    );
}

#[test]
fn options_clause_omitted_when_no_keys() {
    let picture = Picture::new();
    assert_eq!("\\begin{tikzpicture}\n\\end{tikzpicture}", picture.render());
    let axis = Axis::new();
    assert_eq!("\\begin{axis}\n\\end{axis}", axis.render());
    let plot = Plot2D::new();
    assert_eq!("\\addplot\ncoordinates {\n};", plot.render());
}

#[test]
fn options_clause_lists_every_key_in_order() {
    let mut picture = Picture::new();
    picture.add_key(PictureKey::Custom(String::from("baseline")));
    picture.add_key(PictureKey::Custom(String::from("scale=2")));
    assert_eq!(
        "\\begin{tikzpicture}[\n\tbaseline,\n\tscale=2,\n]\n\\end{tikzpicture}",
        picture.render()
    );
}

#[test]
fn render_is_pure() {
    let mut axis = Axis::new();
    axis.set_title("T");
    axis.set_x_label("$x$");
    let mut plot = Plot2D::new();
    plot.coordinates = vec![Coordinate2D { x: 1, y: 2 }, Coordinate2D { x: 1, y: 2 }];
    axis.plots.push(plot);
    let mut picture = Picture::new();
    picture.axes.push(axis);
    let first = picture.standalone_string();
    let second = picture.standalone_string();
    assert_eq!(first, second);
}

#[test]
fn coordinate_block_preserves_order_and_count() {
    let mut plot = Plot2D::new();
    plot.coordinates = vec![
        Coordinate2D { x: 2, y: 4 },
        Coordinate2D { x: 0, y: 0 },
        Coordinate2D { x: 2, y: 4 },
        Coordinate2D { x: 1, y: 1 },
    ];
    // Duplicates and out-of-order entries pass through verbatim.
    assert_eq!(
        "\\addplot\ncoordinates {\n\t(2,4)\n\t(0,0)\n\t(2,4)\n\t(1,1)\n};",
        plot.render()
    );
}

#[test]
fn negative_and_extreme_coordinates() {
    let mut plot = Plot2D::new();
    plot.coordinates = vec![
        Coordinate2D { x: -5, y: -10 },
        Coordinate2D { x: i64::MIN, y: i64::MAX },
    ];
    assert_eq!(
        "\\addplot\ncoordinates {\n\t(-5,-10)\n\t(-9223372036854775808,9223372036854775807)\n};",
        plot.render()
    );
}

#[test]
fn picture_axis_plot_scenario() {
    let mut plot = Plot2D::new();
    plot.coordinates = vec![
        Coordinate2D { x: 0, y: 0 },
        Coordinate2D { x: 1, y: 1 },
        Coordinate2D { x: 2, y: 4 },
    ];
    let mut axis = Axis::new();
    axis.set_title("T");
    axis.plots.push(plot);
    let mut picture = Picture::new();
    picture.axes.push(axis);
    assert_eq!(
        "\\begin{tikzpicture}\n\
         \\begin{axis}[\n\ttitle={T},\n]\n\
         \\addplot\ncoordinates {\n\t(0,0)\n\t(1,1)\n\t(2,4)\n};\n\
         \\end{axis}\n\
         \\end{tikzpicture}",
        picture.render()
    );
}

#[test]
fn bar_style_last_write_wins() {
    let mut plot = Plot2D::new();
    plot.add_key(PlotKey::Type2D(Type2D::YBar { bar_width: 19, bar_shift: 0 }));
    plot.add_key(PlotKey::Type2D(Type2D::XBar { bar_width: 2, bar_shift: 1 }));
    assert_eq!(
        "\\addplot[\n\txbar, bar width=2, bar shift=1,\n]\ncoordinates {\n};",
        plot.render()
    );
}

#[test]
fn bar_style_does_not_evict_custom_keys() {
    let mut plot = Plot2D::new();
    plot.add_key(PlotKey::Custom(String::from("fill=gray!20")));
    plot.add_key(PlotKey::Type2D(Type2D::YBar { bar_width: 19, bar_shift: 0 }));
    plot.add_key(PlotKey::Type2D(Type2D::OnlyMarks));
    plot.add_key(PlotKey::Custom(String::from("draw opacity=0.5")));
    assert_eq!(
        "\\addplot[\n\tfill=gray!20,\n\tonly marks,\n\tdraw opacity=0.5,\n]\ncoordinates {\n};",
        plot.render()
    );
}

#[test]
fn custom_keys_accumulate() {
    let mut axis = Axis::new();
    axis.add_key(AxisKey::Custom(String::from("axis lines=middle")));
    axis.add_key(AxisKey::Custom(String::from("axis lines=middle")));
    axis.add_key(AxisKey::Custom(String::from("grid=both")));
    assert_eq!(
        "\\begin{axis}[\n\taxis lines=middle,\n\taxis lines=middle,\n\tgrid=both,\n]\n\\end{axis}",
        axis.render()
    );
}

#[test]
fn title_replaced_not_duplicated() {
    let mut axis = Axis::new();
    axis.set_title("A");
    axis.set_x_label("$x$");
    axis.set_title("B");
    // The replaced title moves to the end of the list.
    assert_eq!(
        "\\begin{axis}[\n\txlabel={$x$},\n\ttitle={B},\n]\n\\end{axis}",
        axis.render()
    );
}

#[test]
fn linear_and_label_keys_render() {
    let mut plot = Plot2D::new();
    plot.add_key(PlotKey::Type2D(Type2D::Linear));
    plot.coordinates = vec![Coordinate2D { x: 7, y: 49 }];
    let mut axis = Axis::new();
    axis.set_y_label("$y$");
    axis.plots.push(plot);
    assert_eq!(
        "\\begin{axis}[\n\tylabel={$y$},\n]\n\\addplot[\n\tsharp plot,\n]\ncoordinates {\n\t(7,49)\n};\n\\end{axis}",
        axis.render()
    );
}

#[test]
fn default_nodes_are_empty() {
    assert_eq!(Picture::new().render(), Picture::default().render());
    assert_eq!(Axis::new().render(), Axis::default().render());
    assert_eq!(Plot2D::new().render(), Plot2D::default().render());
}

#[test]
fn coordinates_from_pairs() {
    let mut plot = Plot2D::new();
    plot.coordinates = (0i64..3).map(|i| (i, i * i).into()).collect();
    assert_eq!(
        "\\addplot\ncoordinates {\n\t(0,0)\n\t(1,1)\n\t(2,4)\n};",
        plot.render()
    );
}

#[test]
fn cloned_picture_renders_identically() {
    let mut plot = Plot2D::new();
    plot.add_key(PlotKey::Type2D(Type2D::YBar { bar_width: 3, bar_shift: -1 }));
    plot.coordinates = vec![Coordinate2D { x: 4, y: 16 }];
    let mut axis = Axis::new();
    axis.set_title("copy");
    axis.plots.push(plot);
    let mut picture = Picture::new();
    picture.add_key(PictureKey::Custom(String::from("baseline")));
    picture.axes.push(axis);
    let copy = picture.clone();
    assert_eq!(picture.standalone_string(), copy.standalone_string());
}
