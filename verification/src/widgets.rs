//! A trait-bound dispatch demo: widgets that can be drawn on a status bar.
//! A status bar that holds one widget is generic over any widget type; one
//! that holds many uses a tagged union over the closed set of widget kinds,
//! matched exhaustively.

use vstd::prelude::*;
use vstd::string::StringExecFns;

verus! {

/// Something that can be drawn on the screen; drawing yields the line of
/// text the demo prints.
pub trait Widget {
    /// The text drawing this widget produces.
    spec fn drawn(&self) -> Seq<char>;

    /// Draws the widget.
    fn draw(&self) -> (r: String)
        ensures
            r@ == self.drawn(),
    ;
}

/// A widget that also carries a configuration of its own type. What the
/// configuration holds is stated by each implementation.
pub trait ConfigurableWidget: Widget {
    /// The type of this widget's configuration.
    type ConfigType;

    /// Returns the widget's configuration.
    fn config(&self) -> Self::ConfigType;
}

/// The network status widget.
pub struct NetworkStatusWidget {}

/// What the network widget is configured with.
pub struct NetworkStatusConfig {
    pub ssid: String,
    pub password: String,
}

impl Widget for NetworkStatusWidget {
    open spec fn drawn(&self) -> Seq<char> {
        "Drawing network status widget"@
    }

    fn draw(&self) -> (r: String) {
        String::from_str("Drawing network status widget")
    }
}

impl ConfigurableWidget for NetworkStatusWidget {
    type ConfigType = NetworkStatusConfig;

    fn config(&self) -> (c: NetworkStatusConfig)
        ensures
            c.ssid@ == "my_ssid"@,
            c.password@ == "my_password"@,
    {
        NetworkStatusConfig {
            ssid: String::from_str("my_ssid"),
            password: String::from_str("my_password"),
        }
    }
}

/// The battery status widget.
pub struct BatteryStatusWidget {}

/// What the battery widget is configured with.
pub struct BatteryStatusConfig {
    pub level: u8,
}

impl Widget for BatteryStatusWidget {
    open spec fn drawn(&self) -> Seq<char> {
        "Drawing battery status widget"@
    }

    fn draw(&self) -> (r: String) {
        String::from_str("Drawing battery status widget")
    }
}

impl ConfigurableWidget for BatteryStatusWidget {
    type ConfigType = BatteryStatusConfig;

    fn config(&self) -> (c: BatteryStatusConfig)
        ensures
            c.level == 100,
    {
        BatteryStatusConfig { level: 100 }
    }
}

/// One of the widget kinds a shared status bar can hold. The set of kinds
/// is closed and known at compile time, so it is a tagged union matched
/// exhaustively rather than a trait object.
pub enum BarWidget {
    Network(NetworkStatusWidget),
    Battery(BatteryStatusWidget),
}

impl Widget for BarWidget {
    open spec fn drawn(&self) -> Seq<char> {
        match self {
            BarWidget::Network(w) => w.drawn(),
            BarWidget::Battery(w) => w.drawn(),
        }
    }

    fn draw(&self) -> (r: String) {
        match self {
            BarWidget::Network(w) => w.draw(),
            BarWidget::Battery(w) => w.draw(),
        }
    }
}

/// A status bar that holds exactly one widget of any drawable type.
pub struct StatusBarSingleWidget<T: Widget> {
    pub widget: T,
}

/// A status bar that holds any number of widgets of the closed kind set.
pub struct StatusBar {
    pub widgets: Vec<BarWidget>,
}

/// Draws widgets of any drawable type.
pub struct WidgetDrawer {}

impl WidgetDrawer {
    /// Draws one widget of any drawable type.
    pub fn draw_widget<T: Widget>(widget: &T) -> (r: String)
        ensures
            r@ == widget.drawn(),
    {
        widget.draw()
    }
}

/// Runs the demo: draws a lone network widget on a single-widget bar, reads
/// its configuration back, then draws a network and a battery widget from a
/// shared status bar. Returns the drawn lines in order.
pub fn run() -> (lines: Vec<String>)
    ensures
        lines@.len() == 3,
        lines@[0]@ == "Drawing network status widget"@,
        lines@[1]@ == "Drawing network status widget"@,
        lines@[2]@ == "Drawing battery status widget"@,
{
    let network_widget = NetworkStatusWidget {};
    let status_bar_single = StatusBarSingleWidget { widget: network_widget };
    let mut lines: Vec<String> = Vec::new();
    lines.push(status_bar_single.widget.draw());
    let _config = status_bar_single.widget.config();

    let status_bar = StatusBar {
        widgets: vec![
            BarWidget::Network(NetworkStatusWidget {}),
            BarWidget::Battery(BatteryStatusWidget {}),
        ],
    };
    let mut i: usize = 0;
    while i < status_bar.widgets.len()
        invariant
            i <= status_bar.widgets@.len(),
            status_bar.widgets@.len() == 2,
            lines@.len() == 1 + i,
            lines@[0]@ == "Drawing network status widget"@,
            forall|j: int|
                0 <= j < i ==> lines@[j + 1]@ == #[trigger] status_bar.widgets@[j].drawn(),
        decreases status_bar.widgets@.len() - i,
    {
        lines.push(WidgetDrawer::draw_widget(&status_bar.widgets[i]));
        i = i + 1;
    }
    proof {
        assert(status_bar.widgets@[0].drawn() == "Drawing network status widget"@);
        assert(status_bar.widgets@[1].drawn() == "Drawing battery status widget"@);
    }
    lines
}

} // verus!
